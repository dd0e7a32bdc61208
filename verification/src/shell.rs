//! Shell completion integration planning.
//!
//! Three shell families are supported. Bash keeps a fixed three-line hook
//! block appended inside the per-user startup file; fish drops a generated
//! script into a per-user completions directory; zsh drops one into a
//! fixed system-wide directory. Elvish and powershell are recognized but
//! unsupported. This module decides which single artifact an invocation
//! touches and how its content changes; the filesystem work itself happens
//! outside, driven by the returned [`ShellAction`].

use vstd::prelude::*;

use crate::error::CliError;
use crate::error::ErrorModel;
use crate::specifier::push_char;

verus! {

/// The shells the completion subcommand recognizes.
#[derive(Debug, Clone, Copy, PartialEq, Eq)]
pub enum ShellKind {
    Bash,
    Elvish,
    Fish,
    PowerShell,
    Zsh,
}

/// What the completion subcommand was asked to do, resolved once at the
/// argument boundary: install and uninstall are mutually exclusive, and
/// neither means printing the script to standard output.
#[derive(Debug, Clone, Copy, PartialEq, Eq)]
pub enum CompletionMode {
    Generate,
    Install,
    Uninstall,
}

/// The single filesystem (or stdout) effect a completion invocation asks
/// for. The caller performs it; nothing here touches a file.
#[derive(Debug, Clone, PartialEq, Eq)]
pub enum ShellAction {
    /// Write the generated completion script for this shell to stdout.
    PrintScript { shell: ShellKind },
    /// Append the fixed hook block to the file at this path; the file must
    /// already exist.
    AppendBlock { path: String },
    /// Rewrite the file at this path with every hook block removed.
    RemoveBlock { path: String },
    /// Write the generated completion script for this shell to this path,
    /// creating or truncating it.
    WriteScript { path: String, shell: ShellKind },
    /// Delete the file at this path; a missing file is a hard failure.
    DeleteFile { path: String },
}

/// The exact hook block the bash integration appends: a blank line, the
/// line that evaluates the completion generator, a blank line.
pub open spec fn completion_block() -> Seq<char> {
    "\neval \"$(huak config completion)\"\n"@
}

/// The hook block as text.
pub fn completion_block_text() -> (r: String)
    ensures
        r@ == completion_block(),
        r@.len() > 0,
{
    proof {
        reveal_strlit("\neval \"$(huak config completion)\"\n");
    }
    String::from_str("\neval \"$(huak config completion)\"\n")
}

/// Whether `p` occurs in `s` as a contiguous run starting at `i`.
pub open spec fn occurs_at(s: Seq<char>, p: Seq<char>, i: int) -> bool {
    &&& 0 <= i
    &&& i + p.len() <= s.len()
    &&& s.subrange(i, i + p.len() as int) == p
}

/// `s` with every occurrence of `p` removed, scanning left to right and
/// never rescanning removed text, as whole-file rewrite does.
pub open spec fn remove_all(s: Seq<char>, p: Seq<char>) -> Seq<char>
    decreases s.len(),
{
    if p.len() == 0 || s.len() == 0 {
        s
    } else if p.len() <= s.len() && s.subrange(0, p.len() as int) == p {
        remove_all(s.skip(p.len() as int), p)
    } else {
        seq![s[0]] + remove_all(s.skip(1), p)
    }
}

/// Whether `pat` occurs in `content` starting at character `i`.
fn matches_at(content: &str, i: usize, pat: &str) -> (r: bool)
    ensures
        r == occurs_at(content@, pat@, i as int),
{
    let n = content.unicode_len();
    let m = pat.unicode_len();
    if m > n || i > n - m {
        return false;
    }
    let mut j: usize = 0;
    while j < m
        invariant
            n == content@.len(),
            m == pat@.len(),
            i + m <= n,
            j <= m,
            forall|k: int| 0 <= k < j ==> content@[i + k] == pat@[k],
        decreases m - j,
    {
        if content.get_char(i + j) != pat.get_char(j) {
            proof {
                if occurs_at(content@, pat@, i as int) {
                    assert(content@.subrange(i as int, i + m as int)[j as int]
                        == content@[i + j]);
                }
            }
            return false;
        }
        j = j + 1;
    }
    proof {
        assert(content@.subrange(i as int, i + m as int) =~= pat@);
    }
    true
}

/// Rewrites startup-file content with every hook block removed. Content
/// without the block comes back unchanged.
pub fn strip_completion_blocks(content: &str) -> (r: String)
    ensures
        r@ == remove_all(content@, completion_block()),
{
    let block = completion_block_text();
    let pat: &str = block.as_str();
    let n = content.unicode_len();
    let m = pat.unicode_len();
    let mut out = String::new();
    let mut i: usize = 0;
    proof {
        assert(content@.skip(0) =~= content@);
        assert(out@ + remove_all(content@, completion_block())
            =~= remove_all(content@, completion_block()));
    }
    while i < n
        invariant
            n == content@.len(),
            pat@ == completion_block(),
            m == pat@.len(),
            m > 0,
            i <= n,
            out@ + remove_all(content@.skip(i as int), completion_block())
                == remove_all(content@, completion_block()),
        decreases n - i,
    {
        let ghost t = content@.skip(i as int);
        if matches_at(content, i, pat) {
            proof {
                assert(t.subrange(0, m as int)
                    =~= content@.subrange(i as int, i + m as int));
                assert(t.skip(m as int) =~= content@.skip(i + m));
            }
            i = i + m;
        } else {
            let c = content.get_char(i);
            push_char(&mut out, c);
            proof {
                assert(t[0] == content@[i as int]);
                assert(t.skip(1) =~= content@.skip(i + 1));
                if m <= t.len() && t.subrange(0, m as int) == completion_block() {
                    assert(content@.subrange(i as int, i + m as int)
                        =~= t.subrange(0, m as int));
                    assert(false);
                }
                assert(out@ =~= out@.drop_last() + seq![c]);
                assert(out@ + remove_all(content@.skip(i + 1), completion_block())
                    =~= remove_all(content@, completion_block()));
            }
            i = i + 1;
        }
    }
    proof {
        assert(content@.skip(n as int) =~= Seq::<char>::empty());
        assert(out@ =~= remove_all(content@, completion_block()));
    }
    out
}

/// Removing every occurrence of `p` from `c + p` gives back `c`, as long
/// as the appended copy is the only occurrence the scan finds.
proof fn lemma_remove_all_appended(c: Seq<char>, p: Seq<char>)
    requires
        p.len() > 0,
        forall|i: int| 0 <= i < c.len() ==> !occurs_at(c + p, p, i),
    ensures
        remove_all(c + p, p) == c,
    decreases c.len(),
{
    let s = c + p;
    if c.len() == 0 {
        let rest = s.skip(p.len() as int);
        assert(rest =~= Seq::<char>::empty());
        assert(remove_all(rest, p) == rest);
        assert(s.subrange(0, p.len() as int) =~= p);
        assert(remove_all(s, p) == remove_all(rest, p));
        assert(remove_all(s, p) =~= c);
    } else {
        assert(!occurs_at(s, p, 0));
        assert(s.subrange(0, p.len() as int) != p || p.len() > s.len());
        assert(s.skip(1) =~= c.skip(1) + p);
        assert forall|i: int| 0 <= i < c.skip(1).len() implies !occurs_at(
            c.skip(1) + p,
            p,
            i,
        ) by {
            if occurs_at(c.skip(1) + p, p, i) {
                assert(s.subrange(i + 1, i + 1 + p.len() as int)
                    =~= (c.skip(1) + p).subrange(i, i + p.len() as int));
                assert(occurs_at(s, p, i + 1));
            }
        }
        lemma_remove_all_appended(c.skip(1), p);
        assert(remove_all(s, p) =~= seq![s[0]] + c.skip(1));
        assert(seq![s[0]] + c.skip(1) =~= c);
    }
}

/// Append-install followed by append-uninstall restores the startup file
/// byte for byte: appending the hook block and then removing every
/// occurrence of it yields the prior content, whenever the prior content
/// does not itself give the scan an occurrence of the block before the
/// appended one (a file already holding the block is the exception).
pub proof fn lemma_install_then_uninstall(c: Seq<char>)
    requires
        forall|i: int|
            0 <= i < c.len() ==> !occurs_at(c + completion_block(), completion_block(), i),
    ensures
        remove_all(c + completion_block(), completion_block()) == c,
{
    reveal_strlit("\neval \"$(huak config completion)\"\n");
    lemma_remove_all_appended(c, completion_block());
}

/// The startup file the bash hook block lives in.
pub open spec fn bash_startup_path(home: Seq<char>) -> Seq<char> {
    home + "/.bashrc"@
}

/// The per-user fish completions file.
pub open spec fn fish_completions_path(home: Seq<char>) -> Seq<char> {
    home + "/.config/fish/completions/huak.fish"@
}

/// The system-wide zsh completions file.
pub open spec fn zsh_completions_path() -> Seq<char> {
    "/usr/local/share/zsh/site-functions/_huak"@
}

/// Plans the bash install: append the hook block to the per-user startup
/// file, which is assumed to exist already.
pub fn add_completion_bash(home: &str) -> (r: ShellAction)
    ensures
        r matches ShellAction::AppendBlock { path } && path@ == bash_startup_path(home@),
{
    ShellAction::AppendBlock { path: String::from_str(home).concat("/.bashrc") }
}

/// Plans the bash uninstall: rewrite the startup file with every hook
/// block removed.
pub fn remove_completion_bash(home: &str) -> (r: ShellAction)
    ensures
        r matches ShellAction::RemoveBlock { path } && path@ == bash_startup_path(home@),
{
    ShellAction::RemoveBlock { path: String::from_str(home).concat("/.bashrc") }
}

/// Plans the fish install: drop the generated script into the per-user
/// completions directory.
pub fn add_completion_fish(home: &str) -> (r: ShellAction)
    ensures
        r matches ShellAction::WriteScript { path, shell } && path@ == fish_completions_path(
            home@,
        ) && shell == ShellKind::Fish,
{
    ShellAction::WriteScript {
        path: String::from_str(home).concat("/.config/fish/completions/huak.fish"),
        shell: ShellKind::Fish,
    }
}

/// Plans the fish uninstall: delete the dropped script.
pub fn remove_completion_fish(home: &str) -> (r: ShellAction)
    ensures
        r matches ShellAction::DeleteFile { path } && path@ == fish_completions_path(home@),
{
    ShellAction::DeleteFile {
        path: String::from_str(home).concat("/.config/fish/completions/huak.fish"),
    }
}

/// Plans the zsh install: drop the generated script into the system-wide
/// completions directory.
pub fn add_completion_zsh() -> (r: ShellAction)
    ensures
        r matches ShellAction::WriteScript { path, shell } && path@ == zsh_completions_path()
            && shell == ShellKind::Zsh,
{
    ShellAction::WriteScript {
        path: String::from_str("/usr/local/share/zsh/site-functions/_huak"),
        shell: ShellKind::Zsh,
    }
}

/// Plans the zsh uninstall: delete the dropped script.
pub fn remove_completion_zsh() -> (r: ShellAction)
    ensures
        r matches ShellAction::DeleteFile { path } && path@ == zsh_completions_path(),
{
    ShellAction::DeleteFile { path: String::from_str("/usr/local/share/zsh/site-functions/_huak") }
}

/// The mathematical value of a [`ShellAction`]: the same shapes over
/// character sequences.
#[verifier::ext_equal]
pub ghost enum ShellActionModel {
    PrintScript { shell: ShellKind },
    AppendBlock { path: Seq<char> },
    RemoveBlock { path: Seq<char> },
    WriteScript { path: Seq<char>, shell: ShellKind },
    DeleteFile { path: Seq<char> },
}

impl ShellAction {
    /// The abstract value of this action.
    pub open spec fn abs(&self) -> ShellActionModel {
        match self {
            ShellAction::PrintScript { shell } => ShellActionModel::PrintScript { shell: *shell },
            ShellAction::AppendBlock { path } => ShellActionModel::AppendBlock { path: path@ },
            ShellAction::RemoveBlock { path } => ShellActionModel::RemoveBlock { path: path@ },
            ShellAction::WriteScript { path, shell } => ShellActionModel::WriteScript {
                path: path@,
                shell: *shell,
            },
            ShellAction::DeleteFile { path } => ShellActionModel::DeleteFile { path: path@ },
        }
    }
}

/// What installing for this shell plans, given the home directory where
/// one is needed: an error for a missing shell, an unsupported family or a
/// missing home directory, otherwise exactly one action.
pub open spec fn install_plan(shell: Option<ShellKind>, home: Option<Seq<char>>) -> Result<
    ShellActionModel,
    ErrorModel,
> {
    match shell {
        None => Err(ErrorModel::Configuration { message: "no shell provided"@ }),
        Some(ShellKind::Bash) => match home {
            None => Err(ErrorModel::Io { message: "HOME is not set"@ }),
            Some(h) => Ok(ShellActionModel::AppendBlock { path: bash_startup_path(h) }),
        },
        Some(ShellKind::Elvish) => Err(ErrorModel::Unimplemented { message: "elvish completion"@ }),
        Some(ShellKind::Fish) => match home {
            None => Err(ErrorModel::Io { message: "HOME is not set"@ }),
            Some(h) => Ok(
                ShellActionModel::WriteScript {
                    path: fish_completions_path(h),
                    shell: ShellKind::Fish,
                },
            ),
        },
        Some(ShellKind::PowerShell) => Err(
            ErrorModel::Unimplemented { message: "powershell completion"@ },
        ),
        Some(ShellKind::Zsh) => Ok(
            ShellActionModel::WriteScript { path: zsh_completions_path(), shell: ShellKind::Zsh },
        ),
    }
}

/// What uninstalling for this shell plans: the same error cases as
/// installing, otherwise the exact inverse artifact change.
pub open spec fn uninstall_plan(shell: Option<ShellKind>, home: Option<Seq<char>>) -> Result<
    ShellActionModel,
    ErrorModel,
> {
    match shell {
        None => Err(ErrorModel::Configuration { message: "no shell provided"@ }),
        Some(ShellKind::Bash) => match home {
            None => Err(ErrorModel::Io { message: "HOME is not set"@ }),
            Some(h) => Ok(ShellActionModel::RemoveBlock { path: bash_startup_path(h) }),
        },
        Some(ShellKind::Elvish) => Err(ErrorModel::Unimplemented { message: "elvish completion"@ }),
        Some(ShellKind::Fish) => match home {
            None => Err(ErrorModel::Io { message: "HOME is not set"@ }),
            Some(h) => Ok(ShellActionModel::DeleteFile { path: fish_completions_path(h) }),
        },
        Some(ShellKind::PowerShell) => Err(
            ErrorModel::Unimplemented { message: "Powershell completion"@ },
        ),
        Some(ShellKind::Zsh) => Ok(ShellActionModel::DeleteFile { path: zsh_completions_path() }),
    }
}

/// Routes an install request to the shell family's planner. Errors come
/// back before any action is planned, so nothing is touched on failure.
pub fn run_with_install(shell: Option<ShellKind>, home: Option<&String>) -> (r: Result<
    ShellAction,
    CliError,
>)
    ensures
        (match install_plan(shell, home.deep_view()) {
            Ok(am) => r matches Ok(a) && a.abs() == am,
            Err(em) => r matches Err(e) && e.abs() == em,
        }),
{
    let sh = match shell {
        Some(it) => it,
        None => {
            return Err(
                CliError::Configuration { message: String::from_str("no shell provided") },
            );
        },
    };
    match sh {
        ShellKind::Bash => match home {
            Some(h) => Ok(add_completion_bash(h.as_str())),
            None => Err(CliError::Io { message: String::from_str("HOME is not set") }),
        },
        ShellKind::Elvish => Err(
            CliError::Unimplemented { message: String::from_str("elvish completion") },
        ),
        ShellKind::Fish => match home {
            Some(h) => Ok(add_completion_fish(h.as_str())),
            None => Err(CliError::Io { message: String::from_str("HOME is not set") }),
        },
        ShellKind::PowerShell => Err(
            CliError::Unimplemented { message: String::from_str("powershell completion") },
        ),
        ShellKind::Zsh => Ok(add_completion_zsh()),
    }
}

/// Routes an uninstall request to the shell family's planner. Errors come
/// back before any action is planned, so nothing is touched on failure.
pub fn run_with_uninstall(shell: Option<ShellKind>, home: Option<&String>) -> (r: Result<
    ShellAction,
    CliError,
>)
    ensures
        (match uninstall_plan(shell, home.deep_view()) {
            Ok(am) => r matches Ok(a) && a.abs() == am,
            Err(em) => r matches Err(e) && e.abs() == em,
        }),
{
    let sh = match shell {
        Some(it) => it,
        None => {
            return Err(
                CliError::Configuration { message: String::from_str("no shell provided") },
            );
        },
    };
    match sh {
        ShellKind::Bash => match home {
            Some(h) => Ok(remove_completion_bash(h.as_str())),
            None => Err(CliError::Io { message: String::from_str("HOME is not set") }),
        },
        ShellKind::Elvish => Err(
            CliError::Unimplemented { message: String::from_str("elvish completion") },
        ),
        ShellKind::Fish => match home {
            Some(h) => Ok(remove_completion_fish(h.as_str())),
            None => Err(CliError::Io { message: String::from_str("HOME is not set") }),
        },
        ShellKind::PowerShell => Err(
            CliError::Unimplemented { message: String::from_str("Powershell completion") },
        ),
        ShellKind::Zsh => Ok(remove_completion_zsh()),
    }
}

/// When neither install nor uninstall is requested, the completion script
/// for the default shell goes to standard output; no file changes.
pub fn generate_shell_completion_script() -> (r: ShellAction)
    ensures
        r matches ShellAction::PrintScript { shell } && shell == ShellKind::Bash,
{
    ShellAction::PrintScript { shell: ShellKind::Bash }
}

} // verus!
