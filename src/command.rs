//! Turning a rule-creation command into a rule and a reply.

use crate::target::{
    empty_target_builder, expiration_after, target_outcome, BuildOutcome, Target, TargetBuilder,
    TargetBuilderError, TargetBuilderView, TargetView,
};
use vstd::prelude::*;

verus! {

/// The value of one command option, as the command layer hands it over.
pub enum OptionValue {
    Text(String),
    Integer(i64),
    User(u64),
    Other,
}

/// One named option of a command.
pub struct CommandOption {
    pub name: String,
    pub value: OptionValue,
}

/// The outcome of a command: the rule to store, if any, and the reply.
pub struct CommandReply {
    pub target: Option<Target>,
    pub content: String,
}

/// The fields after one option has been applied. Unknown options, and
/// options whose value has the wrong kind, change nothing; so does a negative
/// duration.
pub open spec fn apply_option(b: TargetBuilderView, o: CommandOption, now: u64) -> TargetBuilderView {
    match o.value {
        OptionValue::Text(s) => if o.name@ == "emotes"@ {
            TargetBuilderView { emotes: Some(s@), ..b }
        } else if o.name@ == "regex"@ {
            TargetBuilderView { regex: Some(s@), ..b }
        } else {
            b
        },
        OptionValue::Integer(i) => if o.name@ == "duration"@ && i >= 0 {
            match expiration_after(now, i as u64) {
                Some(e) => TargetBuilderView { expiration: Some(e), ..b },
                None => b,
            }
        } else {
            b
        },
        OptionValue::User(u) => if o.name@ == "user"@ {
            TargetBuilderView { user: Some(u), ..b }
        } else {
            b
        },
        OptionValue::Other => b,
    }
}

/// The fields after all options have been applied in order.
pub open spec fn apply_options(b: TargetBuilderView, opts: Seq<CommandOption>, now: u64) -> TargetBuilderView
    decreases opts.len(),
{
    if opts.len() == 0 {
        b
    } else {
        apply_option(apply_options(b, opts.drop_last(), now), opts.last(), now)
    }
}

/// The fields that a rule-creation command in `guild` with `opts` sets.
pub open spec fn command_fields(guild: Option<u64>, opts: Seq<CommandOption>, now: u64) -> TargetBuilderView {
    apply_options(TargetBuilderView { guild, ..empty_target_builder() }, opts, now)
}

/// The names of the commands that create a rule.
pub open spec fn creates_rule(name: Seq<char>) -> bool {
    name == "target_user"@ || name == "target_regex"@
}

/// The reply to a rule-creation command with the given outcome.
pub open spec fn reply_for(outcome: BuildOutcome<TargetView>) -> Seq<char> {
    match outcome {
        BuildOutcome::Built(_) => "Target added"@,
        BuildOutcome::BadRegex => "Your regex game is weak, bitch. Refer to https://docs.rs/regex/latest/regex/index.html#syntax"@,
        BuildOutcome::MissingUserAndRegex => "Need either a user or a regex or both... bitch"@,
        BuildOutcome::EmptyField(m) => m,
    }
}

fn same_text(s: &String, lit: &str) -> (r: bool)
    ensures
        r == (s@ == lit@),
{
    *s == lit.to_owned()
}

fn apply(builder: TargetBuilder, o: &CommandOption, now: u64) -> (r: TargetBuilder)
    ensures
        r@ == apply_option(builder@, *o, now),
{
    match &o.value {
        OptionValue::Text(s) => if same_text(&o.name, "emotes") {
            builder.set_emotes(s.as_str())
        } else if same_text(&o.name, "regex") {
            builder.set_regex(s.as_str())
        } else {
            builder
        },
        OptionValue::Integer(i) => if same_text(&o.name, "duration") && *i >= 0 {
            builder.set_expiration_at(now, *i as u64)
        } else {
            builder
        },
        OptionValue::User(u) => if same_text(&o.name, "user") {
            builder.set_user(*u)
        } else {
            builder
        },
        OptionValue::Other => builder,
    }
}

/// Handles a command named `name`, issued in `guild` at `now` with `options`.
/// The rule-creation commands build a rule from the options; the reply says
/// whether that worked and, if not, what was wrong.
pub fn plan_command(name: &str, guild: Option<u64>, options: &[CommandOption], now: u64) -> (r: CommandReply)
    ensures
        !creates_rule(name@) ==> r.target is None && r.content@ == "not implemented :("@,
        creates_rule(name@) ==> ({
            let outcome = target_outcome(command_fields(guild, options@, now));
            &&& r.content@ == reply_for(outcome)
            &&& r.target is Some <==> outcome is Built
            &&& r.target matches Some(t) ==> outcome == BuildOutcome::Built(t@)
        }),
{
    let name = name.to_owned();
    if !(same_text(&name, "target_user") || same_text(&name, "target_regex")) {
        return CommandReply { target: None, content: "not implemented :(".to_owned() };
    }
    let mut builder = Target::builder();
    if let Some(g) = guild {
        builder = builder.set_guild(g);
    }
    let ghost start = builder@;
    assert(start == (TargetBuilderView { guild, ..empty_target_builder() }));
    let mut k: usize = 0;
    while k < options.len()
        invariant
            k <= options@.len(),
            builder@ == apply_options(start, options@.subrange(0, k as int), now),
        decreases options@.len() - k,
    {
        assert(options@.subrange(0, k + 1).drop_last() =~= options@.subrange(0, k as int));
        builder = apply(builder, &options[k], now);
        k += 1;
    }
    assert(options@.subrange(0, options@.len() as int) =~= options@);
    match builder.build() {
        Ok(target) => CommandReply { target: Some(target), content: "Target added".to_owned() },
        Err(TargetBuilderError::BadRegex(_)) => CommandReply {
            target: None,
            content: "Your regex game is weak, bitch. Refer to https://docs.rs/regex/latest/regex/index.html#syntax".to_owned(),
        },
        Err(TargetBuilderError::MissingUserAndRegex) => CommandReply {
            target: None,
            content: "Need either a user or a regex or both... bitch".to_owned(),
        },
        Err(e) => CommandReply { target: None, content: e.message() },
    }
}

} // verus!
