//! Validated reaction rules, and the builder that checks them.

use crate::clock::unix_now;
use crate::filter::{compile, regex_compiles};
use crate::segment::{extended_graphemes, split_graphemes, views};
use vstd::prelude::*;

verus! {

/// A rule ready to be stored: reactions for the messages of a guild, narrowed
/// to one user, to a content pattern, or to both. Times are whole seconds
/// since the Unix epoch.
pub struct Target {
    guild: u64,
    user: Option<u64>,
    emotes: Vec<String>,
    expiration: u64,
    regex: Option<String>,
}

/// The contents of a [`Target`].
pub ghost struct TargetView {
    pub guild: u64,
    pub user: Option<u64>,
    pub emotes: Seq<Seq<char>>,
    pub expiration: u64,
    pub regex: Option<Seq<char>>,
}

impl View for Target {
    type V = TargetView;

    closed spec fn view(&self) -> TargetView {
        TargetView {
            guild: self.guild,
            user: self.user,
            emotes: views(self.emotes@),
            expiration: self.expiration,
            regex: match self.regex {
                Some(p) => Some(p@),
                None => None,
            },
        }
    }
}

impl Target {
    pub fn builder() -> (r: TargetBuilder)
        ensures
            r@ == empty_target_builder(),
    {
        TargetBuilder::default()
    }

    pub fn get_guild(&self) -> (r: u64)
        ensures
            r == self@.guild,
    {
        self.guild
    }

    pub fn get_user(&self) -> (r: Option<u64>)
        ensures
            r == self@.user,
    {
        self.user
    }

    pub fn get_emotes(&self) -> (r: &[String])
        ensures
            views(r@) == self@.emotes,
    {
        self.emotes.as_slice()
    }

    pub fn get_expiration(&self) -> (r: u64)
        ensures
            r == self@.expiration,
    {
        self.expiration
    }

    pub fn get_regex(&self) -> (r: Option<&String>)
        ensures
            r matches Some(p) ==> self@.regex == Some(p@),
            r is None ==> self@.regex is None,
    {
        self.regex.as_ref()
    }
}

/// Why a [`TargetBuilder`] could not build a [`Target`].
pub enum TargetBuilderError {
    /// Neither a user nor a pattern was given.
    MissingUserAndRegex,
    /// The pattern does not compile.
    BadRegex(regex::Error),
    /// A required field was not given; the text names it.
    EmptyField(String),
}

impl TargetBuilderError {
    /// A short text for the person who asked for the rule.
    pub fn message(&self) -> (r: String)
        ensures
            self is MissingUserAndRegex ==> r@ == "Missing argument"@,
            self is BadRegex ==> r@ == "Regex was invalid"@,
            self matches TargetBuilderError::EmptyField(s) ==> r@ == s@,
    {
        match self {
            TargetBuilderError::MissingUserAndRegex => "Missing argument".to_owned(),
            TargetBuilderError::BadRegex(_) => "Regex was invalid".to_owned(),
            TargetBuilderError::EmptyField(s) => s.clone(),
        }
    }
}

/// Collects the fields of a [`Target`], in any order, before checking them.
pub struct TargetBuilder {
    guild: Option<u64>,
    user: Option<u64>,
    emotes: Option<String>,
    expiration: Option<u64>,
    regex: Option<String>,
}

/// The fields set so far on a [`TargetBuilder`].
pub ghost struct TargetBuilderView {
    pub guild: Option<u64>,
    pub user: Option<u64>,
    pub emotes: Option<Seq<char>>,
    pub expiration: Option<u64>,
    pub regex: Option<Seq<char>>,
}

pub open spec fn opt_view(o: Option<String>) -> Option<Seq<char>> {
    match o {
        Some(s) => Some(s@),
        None => None,
    }
}

/// A builder with no field set.
pub open spec fn empty_target_builder() -> TargetBuilderView {
    TargetBuilderView { guild: None, user: None, emotes: None, expiration: None, regex: None }
}

/// The expiration `minutes` minutes after `now`, unless that is past the
/// range of the clock.
pub open spec fn expiration_after(now: u64, minutes: u64) -> Option<u64> {
    if now + minutes * 60 <= u64::MAX {
        Some((now + minutes * 60) as u64)
    } else {
        None
    }
}

/// The text of the first missing required field among guild, emotes and
/// expiration, in that order. An empty emote text counts as missing.
pub open spec fn first_missing_field(b: TargetBuilderView) -> Option<Seq<char>> {
    if b.guild is None {
        Some("No Guild provided"@)
    } else if b.emotes is None || b.emotes->0.len() == 0 {
        Some("No Emotes provided"@)
    } else if b.expiration is None {
        Some("No Expiration provided"@)
    } else {
        None
    }
}

/// The target that a builder with every required field set describes: the
/// emote text is split into its user-perceived characters, one reaction each.
pub open spec fn target_of(b: TargetBuilderView) -> TargetView {
    TargetView {
        guild: b.guild->0,
        user: b.user,
        emotes: extended_graphemes(b.emotes->0),
        expiration: b.expiration->0,
        regex: b.regex,
    }
}

/// What building from a given set of fields comes to.
pub ghost enum BuildOutcome<T> {
    MissingUserAndRegex,
    EmptyField(Seq<char>),
    BadRegex,
    Built(T),
}

/// The outcome of building a target from the fields `b`: the first failed
/// check among "a user or a pattern", the required fields, and "the pattern
/// compiles", or the target itself.
pub open spec fn target_outcome(b: TargetBuilderView) -> BuildOutcome<TargetView> {
    if b.user is None && b.regex is None {
        BuildOutcome::MissingUserAndRegex
    } else if first_missing_field(b) is Some {
        BuildOutcome::EmptyField(first_missing_field(b)->0)
    } else if b.regex is Some && !regex_compiles(b.regex->0) {
        BuildOutcome::BadRegex
    } else {
        BuildOutcome::Built(target_of(b))
    }
}

/// The outcome that a result of [`TargetBuilder::build`] stands for.
pub open spec fn build_outcome_of(r: Result<Target, TargetBuilderError>) -> BuildOutcome<TargetView> {
    match r {
        Ok(t) => BuildOutcome::Built(t@),
        Err(TargetBuilderError::MissingUserAndRegex) => BuildOutcome::MissingUserAndRegex,
        Err(TargetBuilderError::EmptyField(m)) => BuildOutcome::EmptyField(m@),
        Err(TargetBuilderError::BadRegex(_)) => BuildOutcome::BadRegex,
    }
}

impl View for TargetBuilder {
    type V = TargetBuilderView;

    closed spec fn view(&self) -> TargetBuilderView {
        TargetBuilderView {
            guild: self.guild,
            user: self.user,
            emotes: opt_view(self.emotes),
            expiration: self.expiration,
            regex: opt_view(self.regex),
        }
    }
}

impl Default for TargetBuilder {
    fn default() -> (r: TargetBuilder)
        ensures
            r@ == empty_target_builder(),
    {
        TargetBuilder { guild: None, user: None, emotes: None, expiration: None, regex: None }
    }
}

impl Clone for TargetBuilder {
    fn clone(&self) -> (r: TargetBuilder)
        ensures
            r@ == self@,
    {
        TargetBuilder {
            guild: self.guild,
            user: self.user,
            emotes: match &self.emotes {
                Some(s) => Some(s.clone()),
                None => None,
            },
            expiration: self.expiration,
            regex: match &self.regex {
                Some(s) => Some(s.clone()),
                None => None,
            },
        }
    }
}

impl TargetBuilder {
    pub fn set_guild(self, gid: u64) -> (r: TargetBuilder)
        ensures
            r@ == (TargetBuilderView { guild: Some(gid), ..self@ }),
    {
        TargetBuilder { guild: Some(gid), ..self }
    }

    pub fn set_user(self, uid: u64) -> (r: TargetBuilder)
        ensures
            r@ == (TargetBuilderView { user: Some(uid), ..self@ }),
    {
        TargetBuilder { user: Some(uid), ..self }
    }

    pub fn set_emotes(self, emotes: &str) -> (r: TargetBuilder)
        ensures
            r@ == (TargetBuilderView { emotes: Some(emotes@), ..self@ }),
    {
        TargetBuilder { emotes: Some(emotes.to_owned()), ..self }
    }

    /// Sets the expiration to `minutes` minutes after `now`; where that is
    /// past the range of the clock, the expiration is left as it was.
    pub fn set_expiration_at(self, now: u64, minutes: u64) -> (r: TargetBuilder)
        ensures
            r@ == (TargetBuilderView {
                expiration: match expiration_after(now, minutes) {
                    Some(e) => Some(e),
                    None => self@.expiration,
                },
                ..self@
            }),
    {
        let at = match minutes.checked_mul(60) {
            Some(secs) => now.checked_add(secs),
            None => None,
        };
        match at {
            Some(e) => TargetBuilder { expiration: Some(e), ..self },
            None => self,
        }
    }

    /// Sets the expiration to `minutes` minutes from now, by the system
    /// clock; where that is past the range of the clock, the expiration is
    /// left as it was. Whatever the clock reads, zero minutes always sets it.
    pub fn set_expiration(self, minutes: u64) -> (r: TargetBuilder)
        ensures
            r@ == (TargetBuilderView { expiration: r@.expiration, ..self@ }),
            exists|now: u64|
                r@.expiration == match #[trigger] expiration_after(now, minutes) {
                    Some(e) => Some(e),
                    None => self@.expiration,
                },
            minutes == 0 ==> r@.expiration is Some,
    {
        let now = unix_now();
        self.set_expiration_at(now, minutes)
    }

    pub fn set_regex(self, regex: &str) -> (r: TargetBuilder)
        ensures
            r@ == (TargetBuilderView { regex: Some(regex@), ..self@ }),
    {
        TargetBuilder { regex: Some(regex.to_owned()), ..self }
    }

    /// Checks the fields and builds the target. The first failed check
    /// decides the error: a user or a pattern must be given, then the guild,
    /// the emotes and the expiration, and last the pattern must compile.
    pub fn build(self) -> (r: Result<Target, TargetBuilderError>)
        ensures
            build_outcome_of(r) == target_outcome(self@),
    {
        if self.user.is_none() && self.regex.is_none() {
            return Err(TargetBuilderError::MissingUserAndRegex);
        }
        let guild = match self.guild {
            Some(g) => g,
            None => return Err(TargetBuilderError::EmptyField("No Guild provided".to_owned())),
        };
        let emotes = match &self.emotes {
            Some(e) if !e.as_str().is_empty() => e,
            _ => return Err(TargetBuilderError::EmptyField("No Emotes provided".to_owned())),
        };
        let expiration = match self.expiration {
            Some(e) => e,
            None => return Err(TargetBuilderError::EmptyField("No Expiration provided".to_owned())),
        };
        if let Some(p) = &self.regex {
            if let Err(e) = compile(p.as_str()) {
                return Err(TargetBuilderError::BadRegex(e));
            }
        }
        let emotes = split_graphemes(emotes.as_str());
        Ok(Target { guild, user: self.user, emotes, expiration, regex: self.regex })
    }
}

} // verus!
