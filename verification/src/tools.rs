//! The registry of named tools that a model's output may call.

use vstd::prelude::*;

verus! {

/// A registered action. Each one takes a text and gives a text.
#[derive(Clone, Copy, Debug, PartialEq, Eq, Structural)]
pub enum Tool {
    WriteFile,
    ReadFile,
}

impl Tool {
    /// What the action answers to `input`. Both actions answer with a fixed
    /// message.
    pub open spec fn reply(self, input: Seq<char>) -> Seq<char> {
        match self {
            Tool::WriteFile => "File written successfully in workspace vault."@,
            Tool::ReadFile => "Sample file content from neural vault."@,
        }
    }

    /// Runs the action on `input`.
    pub fn run(self, input: String) -> (output: String)
        ensures
            output@ == self.reply(input@),
    {
        match self {
            Tool::WriteFile => write_file(input),
            Tool::ReadFile => read_file(input),
        }
    }
}

fn write_file(input: String) -> (output: String)
    ensures
        output@ == Tool::WriteFile.reply(input@),
{
    "File written successfully in workspace vault.".to_owned()
}

fn read_file(input: String) -> (output: String)
    ensures
        output@ == Tool::ReadFile.reply(input@),
{
    "Sample file content from neural vault.".to_owned()
}

/// The tools that every registry starts with, by name.
pub open spec fn builtin_tools() -> Map<Seq<char>, Tool> {
    map!["write_file"@ => Tool::WriteFile, "read_file"@ => Tool::ReadFile]
}

struct Entry {
    name: String,
    tool: Tool,
}

/// The tool that the first entry named `name` holds, from `from` on.
spec fn lookup(entries: Seq<Entry>, name: Seq<char>, from: int) -> Option<Tool>
    decreases entries.len() - from,
{
    if from < 0 || from >= entries.len() {
        None
    } else if entries[from].name@ == name {
        Some(entries[from].tool)
    } else {
        lookup(entries, name, from + 1)
    }
}

/// A mapping from names to tools.
pub struct ToolRegistry {
    tools: Vec<Entry>,
}

impl View for ToolRegistry {
    type V = Map<Seq<char>, Tool>;

    closed spec fn view(&self) -> Map<Seq<char>, Tool> {
        Map::new(
            |name: Seq<char>| lookup(self.tools@, name, 0) is Some,
            |name: Seq<char>| lookup(self.tools@, name, 0)->0,
        )
    }
}

impl ToolRegistry {
    #[verifier::type_invariant]
    spec fn names_are_distinct(self) -> bool {
        forall|i: int, j: int|
            0 <= i < j < self.tools.len() ==> self.tools[i].name@ != self.tools[j].name@
    }

    /// A registry that holds the built-in tools.
    pub fn new() -> (registry: Self)
        ensures
            registry@ == builtin_tools(),
    {
        proof {
            reveal_strlit("write_file");
            reveal_strlit("read_file");
        }
        let mut tools: Vec<Entry> = Vec::new();
        tools.push(Entry { name: "write_file".to_owned(), tool: Tool::WriteFile });
        tools.push(Entry { name: "read_file".to_owned(), tool: Tool::ReadFile });
        assert(tools@[0].name@.len() == 10 && tools@[1].name@.len() == 9);
        let registry = ToolRegistry { tools };
        proof {
            reveal_with_fuel(lookup, 3);
            assert(registry@ =~= builtin_tools());
        }
        registry
    }

    /// Calls the tool registered under exactly `name` on `input`, and gives
    /// its answer. A name that is not registered gives nothing.
    pub fn call(&self, name: &str, input: String) -> (output: Option<String>)
        ensures
            output is Some <==> self@.contains_key(name@),
            output matches Some(text) ==> text@ == self@[name@].reply(input@),
    {
        let key = name.to_owned();
        let mut i: usize = 0;
        while i < self.tools.len()
            invariant
                i <= self.tools.len(),
                key@ == name@,
                lookup(self.tools@, name@, 0) == lookup(self.tools@, name@, i as int),
            decreases self.tools.len() - i,
        {
            if self.tools[i].name == key {
                return Some(self.tools[i].tool.run(input));
            }
            i += 1;
        }
        None
    }
}

} // verus!
