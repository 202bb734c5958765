//! Structured prompt construction: typed components (persona, instruction,
//! context, examples, output format) assembled into one prompt text, with the
//! exact rendered text of every component and of the final prompt specified.

use vstd::prelude::*;

verus! {

/// The separator placed between rendered prompt components.
pub open spec fn spec_component_sep() -> Seq<char> {
    "\n\n"@
}

/// The text obtained by joining `parts` with the separator `sep`.
pub open spec fn spec_join(parts: Seq<Seq<char>>, sep: Seq<char>) -> Seq<char>
    decreases parts.len(),
{
    if parts.len() == 0 {
        Seq::empty()
    } else if parts.len() == 1 {
        parts[0]
    } else {
        parts[0] + sep + spec_join(parts.drop_first(), sep)
    }
}

/// The views of a sequence of strings.
pub open spec fn spec_views(parts: Seq<String>) -> Seq<Seq<char>> {
    parts.map_values(|s: String| s@)
}

/// Joining one more part appends a separator and the part (or is the part
/// itself when nothing was joined yet).
pub proof fn lemma_spec_join_push(parts: Seq<Seq<char>>, sep: Seq<char>, last: Seq<char>)
    ensures
        spec_join(parts.push(last), sep) == if parts.len() == 0 {
            last
        } else {
            spec_join(parts, sep) + sep + last
        },
    decreases parts.len(),
{
    if parts.len() == 0 {
        assert(parts.push(last)[0] == last);
        assert(spec_join(parts.push(last), sep) == last);
    } else if parts.len() == 1 {
        assert(parts.push(last).drop_first() =~= seq![last]);
        assert(parts.push(last)[0] == parts[0]);
        assert(spec_join(seq![last], sep) == seq![last][0]);
        assert(spec_join(parts.push(last), sep) == parts[0] + sep + last);
    } else {
        assert(parts.push(last).drop_first() =~= parts.drop_first().push(last));
        lemma_spec_join_push(parts.drop_first(), sep, last);
        assert(spec_join(parts, sep) + sep + last == parts[0] + sep + (spec_join(
            parts.drop_first(),
            sep,
        ) + sep + last));
    }
}

/// Joins the given strings with the separator.
fn join_strings(parts: &Vec<String>, sep: &str) -> (r: String)
    ensures
        r@ == spec_join(spec_views(parts@), sep@),
{
    let mut out = String::new();
    let mut i: usize = 0;
    while i < parts.len()
        invariant
            i <= parts.len(),
            out@ == spec_join(spec_views(parts@).take(i as int), sep@),
        decreases parts.len() - i,
    {
        if i > 0 {
            out.append(sep);
        }
        out.append(parts[i].as_str());
        proof {
            assert(spec_views(parts@).take(i + 1) =~= spec_views(parts@).take(i as int).push(
                parts@[i as int]@,
            ));
            lemma_spec_join_push(spec_views(parts@).take(i as int), sep@, parts@[i as int]@);
        }
        i = i + 1;
    }
    proof {
        assert(spec_views(parts@).take(parts@.len() as int) =~= spec_views(parts@));
    }
    out
}

/// A component of a prompt: anything that renders to one block of text.
pub trait PromptComponent {
    /// The text this component renders to.
    spec fn spec_string(&self) -> Seq<char>;

    /// Renders the component.
    fn to_string(&self) -> (r: String)
        ensures
            r@ == self.spec_string(),
    ;
}

/// A prompt assembled from rendered components, in the order they were added.
pub struct Prompt {
    components: Vec<String>,
}

impl Prompt {
    /// The rendered texts of the components of this prompt.
    pub closed spec fn spec_components(&self) -> Seq<Seq<char>> {
        spec_views(self.components@)
    }

    /// The full prompt text: the components joined by blank lines.
    pub open spec fn spec_string(&self) -> Seq<char> {
        spec_join(self.spec_components(), spec_component_sep())
    }

    /// Starts building a prompt.
    pub fn builder() -> (r: PromptBuilder)
        ensures
            r.spec_components() =~= Seq::<Seq<char>>::empty(),
    {
        PromptBuilder::new()
    }

    /// Renders the whole prompt.
    pub fn to_string(&self) -> (r: String)
        ensures
            r@ == self.spec_string(),
    {
        join_strings(&self.components, "\n\n")
    }
}

/// A builder that collects prompt components.
pub struct PromptBuilder {
    components: Vec<String>,
}

impl PromptBuilder {
    /// The rendered texts of the components collected so far.
    pub closed spec fn spec_components(&self) -> Seq<Seq<char>> {
        spec_views(self.components@)
    }

    /// Creates an empty builder.
    pub fn new() -> (r: Self)
        ensures
            r.spec_components() =~= Seq::<Seq<char>>::empty(),
    {
        Self { components: Vec::new() }
    }

    /// Adds a component to the prompt being built.
    pub fn add<C: PromptComponent>(self, component: C) -> (r: Self)
        ensures
            r.spec_components() =~= self.spec_components().push(component.spec_string()),
    {
        let mut components = self.components;
        components.push(component.to_string());
        Self { components }
    }

    /// Builds the prompt from the collected components.
    pub fn build(self) -> (r: Prompt)
        ensures
            r.spec_components() == self.spec_components(),
    {
        Prompt { components: self.components }
    }
}

/// A component for adding a block of instructions.
pub struct Instruction {
    text: String,
}

impl Instruction {
    /// Creates an instruction block with the given text.
    pub fn new(text: &str) -> (r: Self)
        ensures
            r.spec_string() == "### Instruction ###\n"@ + text@,
    {
        Self { text: text.to_owned() }
    }
}

impl PromptComponent for Instruction {
    closed spec fn spec_string(&self) -> Seq<char> {
        "### Instruction ###\n"@ + self.text@
    }

    fn to_string(&self) -> (r: String) {
        "### Instruction ###\n".to_owned().concat(self.text.as_str())
    }
}

/// A component for adding a block of context.
pub struct Context {
    text: String,
}

impl Context {
    /// Creates a context block with the given text.
    pub fn new(text: &str) -> (r: Self)
        ensures
            r.spec_string() == "### Context ###\n"@ + text@,
    {
        Self { text: text.to_owned() }
    }
}

impl PromptComponent for Context {
    closed spec fn spec_string(&self) -> Seq<char> {
        "### Context ###\n"@ + self.text@
    }

    fn to_string(&self) -> (r: String) {
        "### Context ###\n".to_owned().concat(self.text.as_str())
    }
}

/// A component for defining the persona of the model.
pub struct Persona {
    text: String,
}

impl Persona {
    /// Creates a persona block with the given text.
    pub fn new(text: &str) -> (r: Self)
        ensures
            r.spec_string() == "### Persona ###\n"@ + text@,
    {
        Self { text: text.to_owned() }
    }
}

impl PromptComponent for Persona {
    closed spec fn spec_string(&self) -> Seq<char> {
        "### Persona ###\n"@ + self.text@
    }

    fn to_string(&self) -> (r: String) {
        "### Persona ###\n".to_owned().concat(self.text.as_str())
    }
}

/// A component for providing a single input/output example.
pub struct Example {
    input: String,
    output: String,
}

impl Example {
    /// Creates an example from an input and the expected output.
    pub fn new(input: &str, output: &str) -> (r: Self)
        ensures
            r.spec_string() == "Input: "@ + input@ + "\nOutput: "@ + output@,
    {
        Self { input: input.to_owned(), output: output.to_owned() }
    }
}

impl PromptComponent for Example {
    closed spec fn spec_string(&self) -> Seq<char> {
        "Input: "@ + self.input@ + "\nOutput: "@ + self.output@
    }

    fn to_string(&self) -> (r: String) {
        "Input: ".to_owned().concat(self.input.as_str()).concat("\nOutput: ").concat(
            self.output.as_str(),
        )
    }
}

/// A component for providing a list of examples.
pub struct FewShot {
    examples: Vec<Example>,
}

impl FewShot {
    /// Creates a few-shot block from the given examples.
    pub fn new(examples: Vec<Example>) -> (r: Self)
        ensures
            r.spec_string() == spec_join(
                examples@.map_values(|e: Example| e.spec_string()),
                spec_component_sep(),
            ),
    {
        Self { examples }
    }
}

impl PromptComponent for FewShot {
    closed spec fn spec_string(&self) -> Seq<char> {
        spec_join(self.examples@.map_values(|e: Example| e.spec_string()), spec_component_sep())
    }

    fn to_string(&self) -> (r: String) {
        let mut parts: Vec<String> = Vec::new();
        let mut i: usize = 0;
        while i < self.examples.len()
            invariant
                i <= self.examples.len(),
                spec_views(parts@) =~= self.examples@.take(i as int).map_values(
                    |e: Example| e.spec_string(),
                ),
            decreases self.examples.len() - i,
        {
            parts.push(self.examples[i].to_string());
            proof {
                assert(self.examples@.take(i + 1).map_values(|e: Example| e.spec_string())
                    =~= self.examples@.take(i as int).map_values(|e: Example| e.spec_string()).push(
                    self.examples@[i as int].spec_string(),
                ));
            }
            i = i + 1;
        }
        proof {
            assert(self.examples@.take(self.examples@.len() as int) =~= self.examples@);
        }
        join_strings(&parts, "\n\n")
    }
}

/// A component for adding a separator line.
pub struct Delimiter;

impl PromptComponent for Delimiter {
    open spec fn spec_string(&self) -> Seq<char> {
        "---"@
    }

    fn to_string(&self) -> (r: String) {
        "---".to_owned()
    }
}

/// A component for defining the desired output format.
pub struct OutputFormat {
    format_description: String,
}

impl OutputFormat {
    /// Creates an output-format block with the given description.
    pub fn new(format_description: &str) -> (r: Self)
        ensures
            r.spec_string() == "### Output Format ###\nYour response must be in the following format:\n"@
                + format_description@,
    {
        Self { format_description: format_description.to_owned() }
    }
}

impl PromptComponent for OutputFormat {
    closed spec fn spec_string(&self) -> Seq<char> {
        "### Output Format ###\nYour response must be in the following format:\n"@
            + self.format_description@
    }

    fn to_string(&self) -> (r: String) {
        "### Output Format ###\nYour response must be in the following format:\n".to_owned().concat(
            self.format_description.as_str(),
        )
    }
}

} // verus!
