//! Choosing the command that actually runs for an invocation.
use vstd::prelude::*;
use vstd::string::*;
use crate::descriptor::{CommandRule, CommandSpec, Descriptor, strings_view};
use crate::pattern::pattern_finds;

verus! {

/// The tokens of an invocation joined with single spaces.
pub open spec fn joined(args: Seq<Seq<char>>) -> Seq<char>
    decreases args.len(),
{
    if args.len() == 0 {
        Seq::empty()
    } else if args.len() == 1 {
        args[0]
    } else {
        joined(args.drop_last()) + seq![' '] + args.last()
    }
}

/// Whether rule `i` of a table matches `text`.
pub open spec fn rule_matches(rules: Seq<CommandRule>, i: int, text: Seq<char>) -> bool {
    pattern_finds(rules[i].pattern.source_view(), text)
}

/// `i` is the first rule of the table that matches `text`.
pub open spec fn is_first_match(rules: Seq<CommandRule>, i: int, text: Seq<char>) -> bool {
    &&& 0 <= i < rules.len()
    &&& rule_matches(rules, i, text)
    &&& forall|j: int| 0 <= j < i ==> !rule_matches(rules, j, text)
}

/// No rule of the table matches `text`.
pub open spec fn no_match(rules: Seq<CommandRule>, text: Seq<char>) -> bool {
    forall|j: int| 0 <= j < rules.len() ==> !rule_matches(rules, j, text)
}

/// Why no command could be chosen.
#[derive(PartialEq, Eq, Structural, Debug, Clone, Copy)]
pub enum ResolveError {
    /// Neither a fixed command nor a matching pattern.
    NoCommand,
}

/// What `resolve` owes for a descriptor and an invocation: the fixed command
/// when there is one, else the first matching rule's command, else `NoCommand`.
pub open spec fn resolves_to(
    d: &Descriptor,
    args: Seq<Seq<char>>,
    r: Result<CommandSpec, ResolveError>,
) -> bool {
    if d.command is Some {
        r is Ok && r->Ok_0.same_as(&d.command->Some_0)
    } else if d.commands is None {
        r == Err::<CommandSpec, ResolveError>(ResolveError::NoCommand)
    } else {
        let rules = d.commands->Some_0@;
        let text = joined(args);
        &&& r is Ok ==> exists|i: int|
            #![trigger rules[i]]
            is_first_match(rules, i, text) && r->Ok_0.same_as(&rules[i].command)
        &&& r is Err ==> r->Err_0 == ResolveError::NoCommand && no_match(rules, text)
    }
}

/// Joins the tokens with single spaces.
pub fn join_args(args: &Vec<String>) -> (r: String)
    ensures
        r@ == joined(strings_view(args@)),
{
    let mut r = String::new();
    let mut i: usize = 0;
    while i < args.len()
        invariant
            i <= args.len(),
            r@ == joined(strings_view(args@.subrange(0, i as int))),
        decreases args.len() - i,
    {
        let ghost before = strings_view(args@.subrange(0, i as int));
        if i > 0 {
            r.append(" ");
        }
        r.append(args[i].as_str());
        i = i + 1;
        proof {
            let now = strings_view(args@.subrange(0, i as int));
            assert(now.drop_last() =~= before);
            assert(now.last() == args@[i - 1]@);
            reveal_strlit(" ");
            if i == 1 {
                assert(r@ =~= joined(now));
            } else {
                assert(r@ =~= joined(before) + seq![' '] + args@[i - 1]@);
                assert(r@ =~= joined(now));
            }
        }
    }
    proof {
        assert(args@.subrange(0, i as int) =~= args@);
    }
    r
}

/// The command to run for `args` (the program token and its arguments):
/// the fixed command if declared, else the first rule whose pattern matches the
/// space-joined tokens, else `NoCommand`.
pub fn resolve(d: &Descriptor, args: &Vec<String>) -> (r: Result<CommandSpec, ResolveError>)
    ensures
        resolves_to(d, strings_view(args@), r),
{
    match &d.command {
        Some(fixed) => Ok(fixed.duplicate()),
        None => match &d.commands {
            None => Err(ResolveError::NoCommand),
            Some(rules) => {
                let text = join_args(args);
                let mut i: usize = 0;
                while i < rules.len()
                    invariant
                        i <= rules.len(),
                        text@ == joined(strings_view(args@)),
                        d.command is None,
                        d.commands == Some(*rules),
                        forall|j: int| 0 <= j < i ==> !rule_matches(rules@, j, text@),
                    decreases rules.len() - i,
                {
                    if rules[i].pattern.is_match(text.as_str()) {
                        let c = rules[i].command.duplicate();
                        let r: Result<CommandSpec, ResolveError> = Ok(c);
                        assert(is_first_match(d.commands->Some_0@, i as int, joined(strings_view(args@)))
                            && r->Ok_0.same_as(&d.commands->Some_0@[i as int].command));
                        return r;
                    }
                    i = i + 1;
                }
                Err(ResolveError::NoCommand)
            },
        },
    }
}

/// A declared fixed command is what resolution returns, whatever the
/// `commands` table holds.
pub proof fn fixed_command_wins(
    d: &Descriptor,
    args: Seq<Seq<char>>,
    r: Result<CommandSpec, ResolveError>,
)
    requires
        d.command is Some,
        resolves_to(d, args, r),
    ensures
        r is Ok,
        r->Ok_0.same_as(&d.command->Some_0),
{
}

/// Without a fixed command, the first matching rule in declaration order is
/// the one used, even when later rules match too.
pub proof fn first_matching_rule_wins(
    d: &Descriptor,
    args: Seq<Seq<char>>,
    r: Result<CommandSpec, ResolveError>,
    i: int,
)
    requires
        d.command is None,
        d.commands is Some,
        is_first_match(d.commands->Some_0@, i, joined(args)),
        resolves_to(d, args, r),
    ensures
        r is Ok,
        r->Ok_0.same_as(&d.commands->Some_0@[i].command),
{
    let rules = d.commands->Some_0@;
    let text = joined(args);
    if r is Err {
        assert(!rule_matches(rules, i, text));
    }
    let k = choose|k: int|
        #![trigger rules[k]]
        is_first_match(rules, k, text) && r->Ok_0.same_as(&rules[k].command);
    if k < i {
        assert(!rule_matches(rules, k, text));
    }
    if i < k {
        assert(!rule_matches(rules, i, text));
    }
}

/// Resolution fails exactly when there is no fixed command and either no
/// table or no rule of it matches; the failure is then `NoCommand`.
pub proof fn no_command_exactly_when_nothing_matches(
    d: &Descriptor,
    args: Seq<Seq<char>>,
    r: Result<CommandSpec, ResolveError>,
)
    requires
        resolves_to(d, args, r),
    ensures
        r is Err <==> (d.command is None && (d.commands is None || no_match(
            d.commands->Some_0@,
            joined(args),
        ))),
        r is Err ==> r->Err_0 == ResolveError::NoCommand,
{
    if d.command is None && d.commands is Some && r is Ok {
        let rules = d.commands->Some_0@;
        let text = joined(args);
        let k = choose|k: int|
            #![trigger rules[k]]
            is_first_match(rules, k, text) && r->Ok_0.same_as(&rules[k].command);
        assert(rule_matches(rules, k, text));
    }
}

} // verus!
