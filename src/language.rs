//! Language of a file, from its extension.
use vstd::prelude::*;
use crate::path::{extension_of, extension_range};
use crate::text::{ascii_lower, lowered, same_text, string_from};

verus! {

/// A language's display name and the key of its icon (empty when there is
/// no icon for it).
#[derive(Debug, Clone)]
pub struct LanguageInfo {
    pub name: String,
    pub icon_key: String,
}

/// The (name, icon key) pair of a known, lowercase extension.
pub open spec fn known_language(e: Seq<char>) -> Option<(Seq<char>, Seq<char>)> {
    if e == "rs"@ {
        Some(("Rust"@, "rust"@))
    } else if e == "py"@ {
        Some(("Python"@, "python"@))
    } else if e == "js"@ || e == "mjs"@ || e == "cjs"@ {
        Some(("JavaScript"@, "javascript"@))
    } else if e == "ts"@ || e == "mts"@ || e == "cts"@ {
        Some(("TypeScript"@, "typescript"@))
    } else if e == "tsx"@ {
        Some(("TypeScript"@, "typescript"@))
    } else if e == "jsx"@ {
        Some(("JavaScript"@, "javascript"@))
    } else if e == "go"@ {
        Some(("Go"@, "go"@))
    } else if e == "java"@ {
        Some(("Java"@, "java"@))
    } else if e == "c"@ {
        Some(("C"@, "c"@))
    } else if e == "cc"@ || e == "cpp"@ || e == "cxx"@ || e == "hpp"@ || e == "hh"@ || e == "hxx"@ {
        Some(("C++"@, "cpp"@))
    } else if e == "rb"@ {
        Some(("Ruby"@, "ruby"@))
    } else if e == "php"@ {
        Some(("PHP"@, "php"@))
    } else if e == "html"@ || e == "htm"@ {
        Some(("HTML"@, "html"@))
    } else if e == "css"@ {
        Some(("CSS"@, "css"@))
    } else if e == "json"@ {
        Some(("JSON"@, "json"@))
    } else if e == "md"@ || e == "markdown"@ {
        Some(("Markdown"@, "markdown"@))
    } else if e == "toml"@ {
        Some(("TOML"@, "toml"@))
    } else if e == "yaml"@ || e == "yml"@ {
        Some(("YAML"@, "yaml"@))
    } else if e == "sh"@ || e == "bash"@ || e == "zsh"@ {
        Some(("Shell"@, "shell"@))
    } else if e == "lua"@ {
        Some(("Lua"@, "lua"@))
    } else if e == "kt"@ || e == "kts"@ {
        Some(("Kotlin"@, "kotlin"@))
    } else if e == "swift"@ {
        Some(("Swift"@, "swift"@))
    } else if e == "cs"@ {
        Some(("C#"@, "csharp"@))
    } else if e == "zig"@ {
        Some(("Zig"@, "zig"@))
    } else if e == "dart"@ {
        Some(("Dart"@, "dart"@))
    } else if e == "ex"@ || e == "exs"@ {
        Some(("Elixir"@, "elixir"@))
    } else if e == "erl"@ || e == "hrl"@ {
        Some(("Erlang"@, "erlang"@))
    } else if e == "scala"@ || e == "sc"@ {
        Some(("Scala"@, "scala"@))
    } else if e == "r"@ {
        Some(("R"@, "r"@))
    } else if e == "sql"@ {
        Some(("SQL"@, "sql"@))
    } else {
        None
    }
}

/// The (name, icon key) pair that a file name gets: a known extension gives
/// its language, another non-empty one is its own name without an icon, and
/// no extension gives "Unknown". Extensions are compared in lowercase.
pub open spec fn language_for(filename: Seq<char>) -> (Seq<char>, Seq<char>) {
    match extension_of(filename) {
        Some(x) => {
            let e = ascii_lower(x);
            match known_language(e) {
                Some(l) => l,
                None => if e.len() > 0 {
                    (e, Seq::empty())
                } else {
                    ("Unknown"@, Seq::empty())
                },
            }
        },
        None => ("Unknown"@, Seq::empty()),
    }
}

impl LanguageInfo {
    /// The view of a language: its name and its icon key.
    pub open spec fn view_pair(&self) -> (Seq<char>, Seq<char>) {
        (self.name@, self.icon_key@)
    }

    pub fn new(name: &str, icon_key: &str) -> (r: Self)
        ensures
            r.name@ == name@,
            r.icon_key@ == icon_key@,
    {
        LanguageInfo { name: name.to_string(), icon_key: icon_key.to_string() }
    }
}

/// The entry of the table of known languages for lowercase extension `e`.
fn lookup_language(e: &Vec<char>) -> (r: Option<(&'static str, &'static str)>)
    ensures
        match r {
            Some((n, i)) => known_language(e@) == Some((n@, i@)),
            None => known_language(e@) is None,
        },
{
    if same_text(e, "rs") {
        Some(("Rust", "rust"))
    } else if same_text(e, "py") {
        Some(("Python", "python"))
    } else if same_text(e, "js") || same_text(e, "mjs") || same_text(e, "cjs") {
        Some(("JavaScript", "javascript"))
    } else if same_text(e, "ts") || same_text(e, "mts") || same_text(e, "cts") {
        Some(("TypeScript", "typescript"))
    } else if same_text(e, "tsx") {
        Some(("TypeScript", "typescript"))
    } else if same_text(e, "jsx") {
        Some(("JavaScript", "javascript"))
    } else if same_text(e, "go") {
        Some(("Go", "go"))
    } else if same_text(e, "java") {
        Some(("Java", "java"))
    } else if same_text(e, "c") {
        Some(("C", "c"))
    } else if same_text(e, "cc") || same_text(e, "cpp") || same_text(e, "cxx") || same_text(e, "hpp") || same_text(e, "hh") || same_text(e, "hxx") {
        Some(("C++", "cpp"))
    } else if same_text(e, "rb") {
        Some(("Ruby", "ruby"))
    } else if same_text(e, "php") {
        Some(("PHP", "php"))
    } else if same_text(e, "html") || same_text(e, "htm") {
        Some(("HTML", "html"))
    } else if same_text(e, "css") {
        Some(("CSS", "css"))
    } else if same_text(e, "json") {
        Some(("JSON", "json"))
    } else if same_text(e, "md") || same_text(e, "markdown") {
        Some(("Markdown", "markdown"))
    } else if same_text(e, "toml") {
        Some(("TOML", "toml"))
    } else if same_text(e, "yaml") || same_text(e, "yml") {
        Some(("YAML", "yaml"))
    } else if same_text(e, "sh") || same_text(e, "bash") || same_text(e, "zsh") {
        Some(("Shell", "shell"))
    } else if same_text(e, "lua") {
        Some(("Lua", "lua"))
    } else if same_text(e, "kt") || same_text(e, "kts") {
        Some(("Kotlin", "kotlin"))
    } else if same_text(e, "swift") {
        Some(("Swift", "swift"))
    } else if same_text(e, "cs") {
        Some(("C#", "csharp"))
    } else if same_text(e, "zig") {
        Some(("Zig", "zig"))
    } else if same_text(e, "dart") {
        Some(("Dart", "dart"))
    } else if same_text(e, "ex") || same_text(e, "exs") {
        Some(("Elixir", "elixir"))
    } else if same_text(e, "erl") || same_text(e, "hrl") {
        Some(("Erlang", "erlang"))
    } else if same_text(e, "scala") || same_text(e, "sc") {
        Some(("Scala", "scala"))
    } else if same_text(e, "r") {
        Some(("R", "r"))
    } else if same_text(e, "sql") {
        Some(("SQL", "sql"))
    } else {
        None
    }
}

/// Detects the language of `filename` from its extension.
pub fn detect_language(filename: &str) -> (r: LanguageInfo)
    ensures
        r.view_pair() == language_for(filename@),
{
    proof {
        reveal_strlit("");
    }
    let v = crate::text::chars_of(filename);
    match extension_range(&v) {
        None => LanguageInfo::new("Unknown", ""),
        Some((a, b)) => {
            let e = lowered(&v, a, b);
            match lookup_language(&e) {
                Some((n, i)) => LanguageInfo::new(n, i),
                None => {
                    if e.len() > 0 {
                        let name = string_from(&e, 0, e.len());
                        assert(e@.subrange(0, e@.len() as int) =~= e@);
                        LanguageInfo { name, icon_key: String::new() }
                    } else {
                        LanguageInfo::new("Unknown", "")
                    }
                },
            }
        },
    }
}

} // verus!
