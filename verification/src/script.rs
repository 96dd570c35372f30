//! The text of the generated script: shebang line, embedded manifest, body.

use crate::cli::NewScriptArgs;
use vstd::prelude::*;

verus! {

/// The shebang line for the given toolchain and verbosity.
pub open spec fn shebang_text(nightly: bool, quiet: bool) -> Seq<char> {
    "#!/usr/bin/env "@ + (if nightly {
        "-S cargo +nightly -Zscript"@
    } else {
        "cargo"@
    }) + (if quiet {
        " --quiet"@
    } else {
        Seq::<char>::empty()
    })
}

/// The body of a script that imports no template.
pub open spec fn main_function_text() -> Seq<char> {
    "fn main() {\n    println!(\"Hello, world!\");\n}"@
}

/// What the script holds: each part that is present, ended by a line break,
/// the manifest between two `---` lines, and a template's text as it is.
pub open spec fn script_text(
    shebang: Option<Seq<char>>,
    manifest: Option<Seq<char>>,
    template: Option<Seq<char>>,
) -> Seq<char> {
    (match shebang {
        Some(line) => line + "\n"@,
        None => Seq::<char>::empty(),
    }) + (match manifest {
        Some(toml) => "---\n"@ + toml + "---\n"@,
        None => Seq::<char>::empty(),
    }) + (match template {
        Some(body) => body,
        None => main_function_text() + "\n"@,
    })
}

pub fn shebang(nightly: bool, quiet: bool) -> (line: String)
    ensures
        line@ == shebang_text(nightly, quiet),
{
    let mut line = String::from_str("#!/usr/bin/env ");
    if nightly {
        line.append("-S cargo +nightly -Zscript");
    } else {
        line.append("cargo");
    }
    if quiet {
        line.append(" --quiet");
    }
    line
}

pub fn main_function() -> (body: &'static str)
    ensures
        body@ == main_function_text(),
{
    "fn main() {\n    println!(\"Hello, world!\");\n}"
}

impl NewScriptArgs {
    /// The shebang line that the options ask for, if they ask for one.
    pub fn shebang_line(&self) -> (line: Option<String>)
        ensures
            self.no_shebang ==> line is None,
            !self.no_shebang ==> line is Some && line->0@ == shebang_text(
                !self.stable,
                !self.verbose_script,
            ),
    {
        if self.no_shebang {
            None
        } else {
            Some(shebang(!self.stable, !self.verbose_script))
        }
    }
}

/// Puts the script together. `manifest` is the embedded manifest as text,
/// which ends with a line break of its own; `template` is the text of the
/// imported program.
pub fn compose_script(shebang: Option<&str>, manifest: Option<&str>, template: Option<&str>) -> (script: String)
    ensures
        script@ == script_text(
            match shebang { Some(s) => Some(s@), None => None },
            match manifest { Some(s) => Some(s@), None => None },
            match template { Some(s) => Some(s@), None => None },
        ),
{
    let mut script = String::new();
    if let Some(line) = shebang {
        script.append(line);
        script.append("\n");
    }
    if let Some(toml) = manifest {
        script.append("---\n");
        script.append(toml);
        script.append("---\n");
    }
    if let Some(body) = template {
        script.append(body);
    } else {
        script.append(main_function());
        script.append("\n");
    }
    script
}

} // verus!
