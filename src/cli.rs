//! The command line: which entry point an invocation asks for, and the
//! decision of the serialized mode's wait on the lock marker.
use vstd::prelude::*;
use vstd::string::*;
use crate::descriptor::strings_view;

verus! {

/// What the command line asks for.
pub enum CliCommand {
    /// Print usage and exit with this status.
    Usage(i32),
    /// Launch; `wait` when the lock marker must clear first. The invocation's
    /// first token is the program path or catalog id.
    Run { wait: bool, invocation: Vec<String> },
    /// Refresh the catalog and download the packages of this id only.
    ManualDownload(String),
    /// Refresh the catalog and open package management.
    Mgmt,
}

/// The sub-command words.
pub open spec fn word(n: int) -> Seq<char> {
    if n == 0 {
        seq!['r', 'u', 'n']
    } else if n == 1 {
        seq!['w', 'a', 'i', 't', '-', 'b', 'e', 'f', 'o', 'r', 'e', '-', 'r', 'u', 'n']
    } else if n == 2 {
        seq!['w', 'a', 'i', 't', 'f', 'o', 'r', 'e', 'x', 'i', 't', 'a', 'n', 'd', 'r', 'u', 'n']
    } else if n == 3 {
        seq!['m', 'a', 'n', 'u', 'a', 'l', '-', 'd', 'o', 'w', 'n', 'l', 'o', 'a', 'd']
    } else {
        seq!['m', 'g', 'm', 't']
    }
}

/// What `parse_command_line` owes for the full argument vector (the tool's
/// own path first, then the sub-command and its operands).
pub open spec fn parsed_as(args: Seq<Seq<char>>, r: CliCommand) -> bool {
    if args.len() < 2 {
        r == CliCommand::Usage(0)
    } else {
        let cmd = args[1];
        let rest = args.subrange(2, args.len() as int);
        if cmd == word(0) || cmd == word(1) || cmd == word(2) {
            if rest.len() == 0 {
                r == CliCommand::Usage(0)
            } else {
                r is Run && r->wait == (cmd == word(1)) && strings_view(r->invocation@) == rest
            }
        } else if cmd == word(3) {
            if rest.len() == 0 {
                r == CliCommand::Usage(0)
            } else {
                r is ManualDownload && r->ManualDownload_0@ == rest[0]
            }
        } else if cmd == word(4) {
            r == CliCommand::Mgmt
        } else {
            r == CliCommand::Usage(1)
        }
    }
}

/// Reads the sub-command: the three launch words start a launch (the
/// waiting one first waits on the lock), `manual-download` needs an id,
/// `mgmt` opens management; nothing to do gives usage with status 0, an
/// unknown word usage with status 1.
pub fn parse_command_line(args: &Vec<String>) -> (r: CliCommand)
    ensures
        parsed_as(strings_view(args@), r),
{
    proof {
        reveal_strlit("run");
        reveal_strlit("wait-before-run");
        reveal_strlit("waitforexitandrun");
        reveal_strlit("manual-download");
        reveal_strlit("mgmt");
        assert("run"@ =~= word(0));
        assert("wait-before-run"@ =~= word(1));
        assert("waitforexitandrun"@ =~= word(2));
        assert("manual-download"@ =~= word(3));
        assert("mgmt"@ =~= word(4));
    }
    let ghost sv = strings_view(args@);
    if args.len() < 2 {
        return CliCommand::Usage(0);
    }
    let cmd = &args[1];
    assert(cmd@ == sv[1]);
    let is_run = *cmd == String::from_str("run");
    let is_wait = *cmd == String::from_str("wait-before-run");
    let is_exit_wait = *cmd == String::from_str("waitforexitandrun");
    if is_run || is_wait || is_exit_wait {
        if args.len() == 2 {
            return CliCommand::Usage(0);
        }
        let mut invocation: Vec<String> = Vec::new();
        let mut i: usize = 2;
        while i < args.len()
            invariant
                2 <= i <= args.len(),
                invocation@.len() == i - 2,
                forall|k: int| 0 <= k < i - 2 ==> (#[trigger] invocation@[k])@ == args@[k + 2]@,
            decreases args.len() - i,
        {
            invocation.push(args[i].clone());
            i = i + 1;
        }
        proof {
            assert(strings_view(invocation@) =~= sv.subrange(2, sv.len() as int));
        }
        CliCommand::Run { wait: is_wait, invocation }
    } else if *cmd == String::from_str("manual-download") {
        if args.len() == 2 {
            return CliCommand::Usage(0);
        }
        CliCommand::ManualDownload(args[2].clone())
    } else if *cmd == String::from_str("mgmt") {
        CliCommand::Mgmt
    } else {
        CliCommand::Usage(1)
    }
}

/// What the serialized mode does after looking at the lock marker.
#[derive(PartialEq, Eq, Structural, Debug, Clone, Copy)]
pub enum LockDecision {
    /// Go on with the launch.
    Proceed,
    /// Look again after a pause.
    Poll,
}

/// Waits only on a marker whose owner is alive, and at most `max_polls` times:
/// a stale marker or an exhausted bound lets the launch go on.
pub fn lock_decision(marker_present: bool, owner_alive: bool, polls: u32, max_polls: u32) -> (r: LockDecision)
    ensures
        r == LockDecision::Poll <==> (marker_present && owner_alive && polls < max_polls),
{
    if marker_present && owner_alive && polls < max_polls {
        LockDecision::Poll
    } else {
        LockDecision::Proceed
    }
}

/// The one-shot download mode's steps.
#[derive(PartialEq, Eq, Structural, Debug, Clone, Copy)]
pub enum FetchAction {
    /// Download the packages of the id.
    Download,
    /// Stop with this status.
    Exit(i32),
}

/// After the catalog refresh: download only if it succeeded, else stop with
/// a failure status.
pub fn fetch_after_refresh(refreshed: bool) -> (r: FetchAction)
    ensures
        refreshed ==> r == FetchAction::Download,
        !refreshed ==> r == FetchAction::Exit(1),
{
    if refreshed {
        FetchAction::Download
    } else {
        FetchAction::Exit(1)
    }
}

/// After the download: status 0 on success, 1 otherwise.
pub fn fetch_after_download(downloaded: bool) -> (r: FetchAction)
    ensures
        r == FetchAction::Exit(if downloaded { 0i32 } else { 1i32 }),
{
    if downloaded {
        FetchAction::Exit(0)
    } else {
        FetchAction::Exit(1)
    }
}

} // verus!
