//! The code-runner sandbox page: the supported languages, their sample
//! programs, switching language, and the resource-override box's verdict.

use vstd::prelude::*;

use crate::text::{str_eq, trim, trim_seq};

verus! {

/// The supported languages, as (key, label), in display order.
pub open spec fn supported_langs_spec() -> Seq<(Seq<char>, Seq<char>)> {
    seq![
        ("python"@, "Python"@),
        ("node"@, "Node.js"@),
        ("go"@, "Go"@),
        ("rust"@, "Rust"@),
        ("bun"@, "Bun (TS)"@),
    ]
}

/// The supported languages, as (key, label), in display order.
pub fn supported_langs() -> (r: Vec<(&'static str, &'static str)>)
    ensures
        r@.len() == supported_langs_spec().len(),
        forall|i: int|
            0 <= i < r@.len() ==> (#[trigger] r@[i]).0@ == supported_langs_spec()[i].0 && r@[i].1@
                == supported_langs_spec()[i].1,
{
    let r = vec![("python", "Python"), ("node", "Node.js"), ("go", "Go"), ("rust", "Rust"), ("bun", "Bun (TS)")];
    r
}

/// The sample program of a language (empty for an unknown one).
pub open spec fn default_source_spec(lang: Seq<char>) -> Seq<char> {
    if lang == "python"@ {
        "print('Hello from author sandbox')\nfor i in range(3):\n    print(f'line {i}')\n"@
    } else if lang == "node"@ {
        "console.log('Hello from author sandbox');\n[0,1,2].forEach(i => console.log(`line ${i}`));\n"@
    } else if lang == "go"@ {
        "package main\n\nimport \"fmt\"\n\nfunc main() {\n\tfmt.Println(\"Hello from author sandbox\")\n\tfor i := 0; i < 3; i++ {\n\t\tfmt.Printf(\"line %d\\n\", i)\n\t}\n}\n"@
    } else if lang == "rust"@ {
        "fn main() {\n    println!(\"Hello from author sandbox\");\n    for i in 0..3 {\n        println!(\"line {}\", i);\n    }\n}\n"@
    } else if lang == "bun"@ {
        "const greeting: string = 'Hello from author sandbox';\nconsole.log(greeting);\n[0, 1, 2].forEach((i: number) => console.log(`line ${i}`));\n"@
    } else {
        Seq::empty()
    }
}

/// The sample program a language starts with.
pub fn default_source(lang: &str) -> (r: String)
    ensures
        r@ == default_source_spec(lang@),
{
    if str_eq(lang, "python") {
        String::from_str("print('Hello from author sandbox')\nfor i in range(3):\n    print(f'line {i}')\n")
    } else if str_eq(lang, "node") {
        String::from_str(
            "console.log('Hello from author sandbox');\n[0,1,2].forEach(i => console.log(`line ${i}`));\n",
        )
    } else if str_eq(lang, "go") {
        String::from_str(
            "package main\n\nimport \"fmt\"\n\nfunc main() {\n\tfmt.Println(\"Hello from author sandbox\")\n\tfor i := 0; i < 3; i++ {\n\t\tfmt.Printf(\"line %d\\n\", i)\n\t}\n}\n",
        )
    } else if str_eq(lang, "rust") {
        String::from_str(
            "fn main() {\n    println!(\"Hello from author sandbox\");\n    for i in 0..3 {\n        println!(\"line {}\", i);\n    }\n}\n",
        )
    } else if str_eq(lang, "bun") {
        String::from_str(
            "const greeting: string = 'Hello from author sandbox';\nconsole.log(greeting);\n[0, 1, 2].forEach((i: number) => console.log(`line ${i}`));\n",
        )
    } else {
        String::new()
    }
}

/// The sandbox's language and source.
pub struct RunnerState {
    pub lang: String,
    pub source: String,
}

impl RunnerState {
    /// Python and its sample, as the page opens.
    pub fn new() -> (r: RunnerState)
        ensures
            r.lang@ == "python"@,
            r.source@ == default_source_spec("python"@),
    {
        RunnerState { lang: String::from_str("python"), source: default_source("python") }
    }

    /// A language pill: another language replaces the source with its
    /// sample; the current one changes nothing.
    pub fn select_lang(&mut self, lang: &str)
        ensures
            old(self).lang@ == lang@ ==> *final(self) == *old(self),
            old(self).lang@ != lang@ ==> final(self).lang@ == lang@ && final(self).source@
                == default_source_spec(lang@),
    {
        if !str_eq(self.lang.as_str(), lang) {
            self.lang = String::from_str(lang);
            self.source = default_source(lang);
        }
    }
}

/// The note under the resource-override box, given whether its JSON
/// parsed: nothing when it parsed or is blank, else the format warning
/// (the box is then ignored).
pub fn override_error(parsed: bool, raw: &str) -> (r: String)
    ensures
        parsed || trim_seq(raw@).len() == 0 ==> r@.len() == 0,
        !parsed && trim_seq(raw@).len() > 0 ==> r@ == "overrides JSON 格式错误，已忽略"@,
{
    if parsed {
        return String::new();
    }
    let t = trim(raw);
    if t.unicode_len() == 0 {
        String::new()
    } else {
        String::from_str("overrides JSON 格式错误，已忽略")
    }
}

/// The text the override parser reads: the box trimmed.
pub fn override_input(raw: &str) -> (r: String)
    ensures
        r@ == trim_seq(raw@),
{
    trim(raw)
}

/// The staggered entry delay of the `idx`-th language pill.
pub fn lang_pill_delay(idx: usize) -> (r: usize)
    requires
        idx < 5,
    ensures
        r == idx * 40,
{
    idx * 40
}

} // verus!
