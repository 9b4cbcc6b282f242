//! Rules aimed at one user, and the builder that checks them.

use crate::clock::unix_now;
use crate::filter::{compile, regex_compiles};
use crate::segment::{extended_graphemes, split_graphemes, views};
use crate::target::{expiration_after, opt_view, BuildOutcome};
use vstd::prelude::*;

verus! {

/// A rule aimed at one user of a guild, optionally narrowed to a content
/// pattern. Times are whole seconds since the Unix epoch.
pub struct Attack {
    guild: u64,
    user: u64,
    emotes: Vec<String>,
    expiration: u64,
    regex: Option<String>,
}

/// The contents of an [`Attack`].
pub ghost struct AttackView {
    pub guild: u64,
    pub user: u64,
    pub emotes: Seq<Seq<char>>,
    pub expiration: u64,
    pub regex: Option<Seq<char>>,
}

impl View for Attack {
    type V = AttackView;

    closed spec fn view(&self) -> AttackView {
        AttackView {
            guild: self.guild,
            user: self.user,
            emotes: views(self.emotes@),
            expiration: self.expiration,
            regex: match self.regex {
                Some(p) => Some(p@),
                None => None,
            },
        }
    }
}

impl Attack {
    pub fn builder() -> (r: AttackBuilder)
        ensures
            r@ == empty_attack_builder(),
    {
        AttackBuilder::default()
    }

    pub fn get_guild(&self) -> (r: u64)
        ensures
            r == self@.guild,
    {
        self.guild
    }

    pub fn get_user(&self) -> (r: u64)
        ensures
            r == self@.user,
    {
        self.user
    }

    pub fn get_emotes(&self) -> (r: &[String])
        ensures
            views(r@) == self@.emotes,
    {
        self.emotes.as_slice()
    }

    pub fn get_expiration(&self) -> (r: u64)
        ensures
            r == self@.expiration,
    {
        self.expiration
    }

    pub fn get_regex(&self) -> (r: Option<&String>)
        ensures
            r matches Some(p) ==> self@.regex == Some(p@),
            r is None ==> self@.regex is None,
    {
        self.regex.as_ref()
    }
}

/// Why an [`AttackBuilder`] could not build an [`Attack`].
pub enum AttackBuilderError {
    /// The pattern does not compile.
    BadRegex(regex::Error),
    /// A required field was not given; the text names it.
    EmptyField(String),
}

impl AttackBuilderError {
    /// A short text for the person who asked for the rule.
    pub fn message(&self) -> (r: String)
        ensures
            self is BadRegex ==> r@ == "Regex was invalid"@,
            self matches AttackBuilderError::EmptyField(s) ==> r@ == s@,
    {
        match self {
            AttackBuilderError::BadRegex(_) => "Regex was invalid".to_owned(),
            AttackBuilderError::EmptyField(s) => s.clone(),
        }
    }
}

/// Collects the fields of an [`Attack`], in any order, before checking them.
pub struct AttackBuilder {
    guild: Option<u64>,
    user: Option<u64>,
    emotes: Option<String>,
    expiration: Option<u64>,
    regex: Option<String>,
}

/// The fields set so far on an [`AttackBuilder`].
pub ghost struct AttackBuilderView {
    pub guild: Option<u64>,
    pub user: Option<u64>,
    pub emotes: Option<Seq<char>>,
    pub expiration: Option<u64>,
    pub regex: Option<Seq<char>>,
}

/// A builder with no field set.
pub open spec fn empty_attack_builder() -> AttackBuilderView {
    AttackBuilderView { guild: None, user: None, emotes: None, expiration: None, regex: None }
}

/// The text of the first missing required field among guild, user, emotes
/// and expiration, in that order. An empty emote text counts as missing.
pub open spec fn first_missing_field(b: AttackBuilderView) -> Option<Seq<char>> {
    if b.guild is None {
        Some("No Guild provided"@)
    } else if b.user is None {
        Some("No User provided"@)
    } else if b.emotes is None || b.emotes->0.len() == 0 {
        Some("No Emotes provided"@)
    } else if b.expiration is None {
        Some("No Expiration provided"@)
    } else {
        None
    }
}

/// The attack that a builder with every required field set describes: the
/// emote text is split into its user-perceived characters, one reaction each.
pub open spec fn attack_of(b: AttackBuilderView) -> AttackView {
    AttackView {
        guild: b.guild->0,
        user: b.user->0,
        emotes: extended_graphemes(b.emotes->0),
        expiration: b.expiration->0,
        regex: b.regex,
    }
}

/// The outcome of building an attack from the fields `b`: the first failed
/// check among the required fields and "the pattern compiles", or the attack
/// itself.
pub open spec fn attack_outcome(b: AttackBuilderView) -> BuildOutcome<AttackView> {
    if first_missing_field(b) is Some {
        BuildOutcome::EmptyField(first_missing_field(b)->0)
    } else if b.regex is Some && !regex_compiles(b.regex->0) {
        BuildOutcome::BadRegex
    } else {
        BuildOutcome::Built(attack_of(b))
    }
}

/// The outcome that a result of [`AttackBuilder::build`] stands for.
pub open spec fn attack_result_outcome(r: Result<Attack, AttackBuilderError>) -> BuildOutcome<AttackView> {
    match r {
        Ok(t) => BuildOutcome::Built(t@),
        Err(AttackBuilderError::EmptyField(m)) => BuildOutcome::EmptyField(m@),
        Err(AttackBuilderError::BadRegex(_)) => BuildOutcome::BadRegex,
    }
}

impl View for AttackBuilder {
    type V = AttackBuilderView;

    closed spec fn view(&self) -> AttackBuilderView {
        AttackBuilderView {
            guild: self.guild,
            user: self.user,
            emotes: opt_view(self.emotes),
            expiration: self.expiration,
            regex: opt_view(self.regex),
        }
    }
}

impl Default for AttackBuilder {
    fn default() -> (r: AttackBuilder)
        ensures
            r@ == empty_attack_builder(),
    {
        AttackBuilder { guild: None, user: None, emotes: None, expiration: None, regex: None }
    }
}

impl Clone for AttackBuilder {
    fn clone(&self) -> (r: AttackBuilder)
        ensures
            r@ == self@,
    {
        AttackBuilder {
            guild: self.guild,
            user: self.user,
            emotes: match &self.emotes {
                Some(s) => Some(s.clone()),
                None => None,
            },
            expiration: self.expiration,
            regex: match &self.regex {
                Some(s) => Some(s.clone()),
                None => None,
            },
        }
    }
}

impl AttackBuilder {
    pub fn set_guild(self, gid: u64) -> (r: AttackBuilder)
        ensures
            r@ == (AttackBuilderView { guild: Some(gid), ..self@ }),
    {
        AttackBuilder { guild: Some(gid), ..self }
    }

    pub fn set_user(self, uid: u64) -> (r: AttackBuilder)
        ensures
            r@ == (AttackBuilderView { user: Some(uid), ..self@ }),
    {
        AttackBuilder { user: Some(uid), ..self }
    }

    pub fn set_emotes(self, emotes: &str) -> (r: AttackBuilder)
        ensures
            r@ == (AttackBuilderView { emotes: Some(emotes@), ..self@ }),
    {
        AttackBuilder { emotes: Some(emotes.to_owned()), ..self }
    }

    /// Sets the expiration to `minutes` minutes after `now`; where that is
    /// past the range of the clock, the expiration is left as it was.
    pub fn set_expiration_at(self, now: u64, minutes: u64) -> (r: AttackBuilder)
        ensures
            r@ == (AttackBuilderView {
                expiration: match expiration_after(now, minutes) {
                    Some(e) => Some(e),
                    None => self@.expiration,
                },
                ..self@
            }),
    {
        let at = match minutes.checked_mul(60) {
            Some(secs) => now.checked_add(secs),
            None => None,
        };
        match at {
            Some(e) => AttackBuilder { expiration: Some(e), ..self },
            None => self,
        }
    }

    /// Sets the expiration to `minutes` minutes from now, by the system
    /// clock; where that is past the range of the clock, the expiration is
    /// left as it was. Whatever the clock reads, zero minutes always sets it.
    pub fn set_expiration(self, minutes: u64) -> (r: AttackBuilder)
        ensures
            r@ == (AttackBuilderView { expiration: r@.expiration, ..self@ }),
            exists|now: u64|
                r@.expiration == match #[trigger] expiration_after(now, minutes) {
                    Some(e) => Some(e),
                    None => self@.expiration,
                },
            minutes == 0 ==> r@.expiration is Some,
    {
        let now = unix_now();
        self.set_expiration_at(now, minutes)
    }

    pub fn set_regex(self, regex: &str) -> (r: AttackBuilder)
        ensures
            r@ == (AttackBuilderView { regex: Some(regex@), ..self@ }),
    {
        AttackBuilder { regex: Some(regex.to_owned()), ..self }
    }

    /// Checks the fields and builds the attack. The first failed check
    /// decides the error: the guild, the user, the emotes and the expiration
    /// must be given, and then the pattern must compile.
    pub fn build(self) -> (r: Result<Attack, AttackBuilderError>)
        ensures
            attack_result_outcome(r) == attack_outcome(self@),
    {
        let guild = match self.guild {
            Some(g) => g,
            None => return Err(AttackBuilderError::EmptyField("No Guild provided".to_owned())),
        };
        let user = match self.user {
            Some(u) => u,
            None => return Err(AttackBuilderError::EmptyField("No User provided".to_owned())),
        };
        let emotes = match &self.emotes {
            Some(e) if !e.as_str().is_empty() => e,
            _ => return Err(AttackBuilderError::EmptyField("No Emotes provided".to_owned())),
        };
        let expiration = match self.expiration {
            Some(e) => e,
            None => return Err(AttackBuilderError::EmptyField("No Expiration provided".to_owned())),
        };
        if let Some(p) = &self.regex {
            if let Err(e) = compile(p.as_str()) {
                return Err(AttackBuilderError::BadRegex(e));
            }
        }
        let emotes = split_graphemes(emotes.as_str());
        Ok(Attack { guild, user, emotes, expiration, regex: self.regex })
    }
}

} // verus!
