//! The patch source: what is applied to each repository — a diff file for
//! the patch utility, or an arbitrary script — together with the shell
//! command the diff form uses and the default commit message.

use vstd::prelude::*;

verus! {

/// What to apply to each repository: a diff file (run through the patch
/// utility) or a script, by path. Exactly one must be chosen for a run.
#[derive(Clone, Debug, PartialEq)]
pub enum PatchSource {
    DiffFile(String),
    ScriptFile(String),
}

/// What can go wrong when selecting the patch source from the command line.
#[derive(Clone, Copy, Debug, PartialEq, Eq, Structural)]
pub enum ArgsError {
    /// Both a patch file and a patch script were given, or neither.
    IncorrectArguments,
}

impl ArgsError {
    /// A human-readable description of the error.
    pub fn message(&self) -> (r: String)
        ensures
            r@ == "Incorrect arguments"@,
    {
        String::from_str("Incorrect arguments")
    }
}

impl PatchSource {
    /// A short description of the source, for reporting.
    pub fn label(&self) -> (r: String)
        ensures
            match self {
                PatchSource::DiffFile(p) => r@ == "diff "@ + p@,
                PatchSource::ScriptFile(p) => r@ == "script "@ + p@,
            },
    {
        match self {
            PatchSource::DiffFile(p) => {
                let mut s = String::new();
                s.append("diff ");
                s.append(p.as_str());
                proof {
                    assert(s@ =~= "diff "@ + p@);
                }
                s
            },
            PatchSource::ScriptFile(p) => {
                let mut s = String::new();
                s.append("script ");
                s.append(p.as_str());
                proof {
                    assert(s@ =~= "script "@ + p@);
                }
                s
            },
        }
    }

    /// The shell command that applies a diff file in the repository's
    /// working directory.
    pub fn patch_command(patch_file: &str) -> (r: String)
        ensures
            r@ == "patch -t --forward -p1 < "@ + patch_file@,
    {
        let mut s = String::new();
        s.append("patch -t --forward -p1 < ");
        s.append(patch_file);
        proof {
            assert(s@ =~= "patch -t --forward -p1 < "@ + patch_file@);
        }
        s
    }
}

/// Chooses the patch source from the two mutually exclusive command-line
/// paths: exactly one of the two must be present.
pub fn select_patch_source(patch_file: Option<String>, patch_script: Option<String>) -> (r: Result<
    PatchSource,
    ArgsError,
>)
    ensures
        match (patch_file, patch_script) {
            (Some(f), None) => r == Ok::<PatchSource, ArgsError>(PatchSource::DiffFile(f)),
            (None, Some(s)) => r == Ok::<PatchSource, ArgsError>(PatchSource::ScriptFile(s)),
            _ => r == Err::<PatchSource, ArgsError>(ArgsError::IncorrectArguments),
        },
{
    match (patch_file, patch_script) {
        (Some(f), None) => Ok(PatchSource::DiffFile(f)),
        (None, Some(s)) => Ok(PatchSource::ScriptFile(s)),
        _ => Err(ArgsError::IncorrectArguments),
    }
}

/// The commit message for a run: the operator's own message when given, else
/// a default naming the patch file or script.
pub fn get_commit_msg(
    custom: &Option<String>,
    patch_file: &Option<String>,
    patch_script: &Option<String>,
) -> (r: String)
    ensures
        match custom {
            Some(m) => r@ == m@,
            None => match (patch_file, patch_script) {
                (Some(f), _) => r@ == "Batchpatch applied the patch file "@ + f@,
                (None, Some(s)) => r@ == "Batchpatch applied the script "@ + s@,
                (None, None) => r@ == "Batchpatch applied an operation"@,
            },
        },
{
    match custom {
        Some(m) => m.clone(),
        None => {
            match (patch_file, patch_script) {
                (Some(f), _) => {
                    let mut s = String::new();
                    s.append("Batchpatch applied the patch file ");
                    s.append(f.as_str());
                    proof {
                        assert(s@ =~= "Batchpatch applied the patch file "@ + f@);
                    }
                    s
                },
                (None, Some(sc)) => {
                    let mut s = String::new();
                    s.append("Batchpatch applied the script ");
                    s.append(sc.as_str());
                    proof {
                        assert(s@ =~= "Batchpatch applied the script "@ + sc@);
                    }
                    s
                },
                (None, None) => String::from_str("Batchpatch applied an operation"),
            }
        },
    }
}

} // verus!
