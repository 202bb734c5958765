//! Configuration for the mailbox authentication handshake. The token
//! exchange itself is an external collaborator; the library holds the
//! already-resolved configuration values the bootstrap layer passes in, and
//! the scopes a handshake can be asked for.

use vstd::prelude::*;

verus! {

/// An error of the authentication handshake.
#[derive(Debug)]
pub enum AuthError {
    /// The credential file was not found or failed to read.
    CredentialReadError(String),
    /// The token exchange failed.
    AuthenticationFailed(String),
}

/// An authorization scope a consumer can request for the mailbox API.
#[derive(Debug, Clone, Copy, PartialEq, Eq, Structural)]
pub enum GmailScope {
    /// Full mailbox access.
    Full,
    /// Manage labels.
    Labels,
    /// Read and change messages.
    Modify,
    /// Read-only access.
    Readonly,
    /// Send messages.
    Send,
}

/// The authentication flow to use.
#[derive(Debug, Clone, Copy, PartialEq, Eq, Structural)]
pub enum GoogleAuthFlow {
    /// The redirect flow: a local server on the given port (or an ephemeral
    /// one) receives the authorization code.
    Redirect { port: Option<u16>, open_browser: bool },
    /// The interactive flow: the user pastes the authorization code.
    Interactive { open_browser: bool },
}

impl Default for GoogleAuthFlow {
    /// The default flow: redirect to an ephemeral port, without opening a
    /// browser.
    fn default() -> (r: Self)
        ensures
            r == (GoogleAuthFlow::Redirect { port: None, open_browser: false }),
    {
        GoogleAuthFlow::Redirect { port: None, open_browser: false }
    }
}

/// How the authorization code comes back to the application during the
/// handshake.
#[derive(Debug, Clone, Copy, PartialEq, Eq, Structural)]
pub enum FlowReturnMethod {
    /// A local server on an ephemeral port receives the code.
    HttpRedirect,
    /// A local server on the given port receives the code.
    HttpPortRedirect(u16),
    /// The user pastes the code.
    Interactive,
}

/// The return method the handshake uses for a configured flow, and whether a
/// browser is opened to present the authorization URL.
pub fn flow_return_method(flow: &GoogleAuthFlow) -> (r: (FlowReturnMethod, bool))
    ensures
        match *flow {
            GoogleAuthFlow::Redirect { port: Some(p), open_browser } => r == (
                FlowReturnMethod::HttpPortRedirect(p),
                open_browser,
            ),
            GoogleAuthFlow::Redirect { port: None, open_browser } => r == (
                FlowReturnMethod::HttpRedirect,
                open_browser,
            ),
            GoogleAuthFlow::Interactive { open_browser } => r == (
                FlowReturnMethod::Interactive,
                open_browser,
            ),
        },
{
    match flow {
        GoogleAuthFlow::Redirect { port, open_browser } => (
            match port {
                Some(p) => FlowReturnMethod::HttpPortRedirect(*p),
                None => FlowReturnMethod::HttpRedirect,
            },
            *open_browser,
        ),
        GoogleAuthFlow::Interactive { open_browser } => (
            FlowReturnMethod::Interactive,
            *open_browser,
        ),
    }
}

/// A delegate that presents the authorization URL to the user by opening a
/// browser. Presenting the URL is I/O and belongs to the composing layer;
/// the type stands here as part of the configuration surface.
#[derive(Debug)]
pub struct InstalledFlowBrowserDelegate;

/// The inner configuration for authentication.
#[derive(Debug)]
pub struct InnerConf {
    /// The path of the credential file.
    pub credentials_path: String,
    /// The path of the token cache file.
    pub token_path: String,
    /// The authentication flow to use.
    pub flow: GoogleAuthFlow,
}

/// The shared authentication configuration.
#[derive(Debug, Clone)]
pub struct GConf(pub std::sync::Arc<InnerConf>);

} // verus!
