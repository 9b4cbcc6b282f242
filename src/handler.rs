//! Deciding the reactions for an incoming message.

use crate::action::{applies, expired, Action};
use crate::filter::{compile, is_match, regex_compiles, regex_matches};
use crate::reaction_set::{append_new, batch_units, disjoint, offered, ReactionSet};
use crate::segment::{extended_graphemes, joined, split_graphemes, views};
use std::collections::HashMap;
use vstd::prelude::*;

verus! {

broadcast use vstd::std_specs::hash::group_hash_axioms;

/// Per guild: the user spelling a word one character per message, and the
/// characters spelled so far.
pub type Chain = Map<u64, (u64, Seq<char>)>;

/// The anti-evasion state after `user` sends `msg` in `guild`.
///
/// A message of one user-perceived character from the user who holds the
/// guild's entry extends it; one from anyone else starts a fresh entry; any
/// other message clears the guild's entry.
pub open spec fn chain_after(chain: Chain, guild: u64, user: u64, msg: Seq<char>) -> Chain {
    let letters = extended_graphemes(msg);
    if letters.len() != 1 {
        chain.remove(guild)
    } else if chain.contains_key(guild) && chain[guild].0 == user {
        chain.insert(guild, (user, chain[guild].1 + letters[0]))
    } else {
        chain.insert(guild, (user, letters[0]))
    }
}

/// The spelled-out word that `msg` completes, if `msg` extends the entry of
/// its own author.
pub open spec fn spelled(chain: Chain, guild: u64, user: u64, msg: Seq<char>) -> Option<Seq<char>> {
    let letters = extended_graphemes(msg);
    if letters.len() == 1 && chain.contains_key(guild) && chain[guild].0 == user {
        Some(chain[guild].1 + letters[0])
    } else {
        None
    }
}

/// `msg` is exactly one user-perceived character.
pub open spec fn one_character(msg: Seq<char>) -> bool {
    extended_graphemes(msg) == seq![msg]
}

/// A user who spells a word one character per message in a guild, with no
/// entry of their own there before, gets nothing back for the first
/// character and the whole word so far for each later one.
pub proof fn lemma_spelling_accumulates(chain: Chain, guild: u64, user: u64, a: Seq<char>, b: Seq<char>, c: Seq<char>)
    requires
        one_character(a),
        one_character(b),
        one_character(c),
        !(chain.contains_key(guild) && chain[guild].0 == user),
    ensures
        spelled(chain, guild, user, a) is None,
        spelled(chain_after(chain, guild, user, a), guild, user, b) == Some(a + b),
        spelled(
            chain_after(chain_after(chain, guild, user, a), guild, user, b),
            guild,
            user,
            c,
        ) == Some(a + b + c),
{
    let c1 = chain_after(chain, guild, user, a);
    let c2 = chain_after(c1, guild, user, b);
    assert(extended_graphemes(a)[0] == a);
    assert(extended_graphemes(b)[0] == b);
    assert(extended_graphemes(c)[0] == c);
    assert(c1[guild] == (user, a));
    assert(c2[guild] == (user, a + b));
}

/// A one-character message of another user in between breaks the chain:
/// the first user's next character completes nothing and starts afresh.
pub proof fn lemma_interjection_resets(
    chain: Chain,
    guild: u64,
    user: u64,
    other: u64,
    a: Seq<char>,
    x: Seq<char>,
    b: Seq<char>,
)
    requires
        user != other,
        one_character(a),
        one_character(x),
        one_character(b),
    ensures
        ({
            let interrupted = chain_after(chain_after(chain, guild, user, a), guild, other, x);
            &&& spelled(interrupted, guild, user, b) is None
            &&& chain_after(interrupted, guild, user, b)[guild] == (user, b)
        }),
{
    assert(extended_graphemes(x)[0] == x);
    assert(extended_graphemes(b)[0] == b);
}

/// Scope filtering with a rule for one user and a pattern rule for everyone
/// in the same guild, each with one reaction and no expiration: the user's
/// rule reacts only to its own user's messages, the pattern rule only to
/// texts its pattern matches, and the reactions come in rule order.
pub proof fn lemma_scope_filtering(
    for_user: Action,
    for_text: Action,
    guild: u64,
    author: u64,
    now: u64,
    content: Seq<char>,
    a: Seq<char>,
    b: Seq<char>,
)
    requires
        for_user.guild_id == guild,
        for_user.user_id is Some,
        for_user.regex is None,
        for_user.expiration is None,
        views(for_user.reactions@) == seq![a],
        for_text.guild_id == guild,
        for_text.user_id is None,
        for_text.regex is Some,
        regex_compiles(for_text.regex->0@),
        for_text.expiration is None,
        views(for_text.reactions@) == seq![b],
        a != b,
    ensures
        planned_reactions(seq![for_user, for_text], guild, author, now, content, None)
            == (if for_user.user_id == Some(author) {
            seq![a]
        } else {
            Seq::empty()
        }) + (if regex_matches(for_text.regex->0@, content) {
            seq![b]
        } else {
            Seq::empty()
        }),
{
    let rules = seq![for_user, for_text];
    assert(rules.drop_last() == seq![for_user]);
    assert(rules.drop_last().drop_last() =~= Seq::<Action>::empty());
    assert(joined(seq![a]) =~= a) by {
        assert(seq![a].drop_last() =~= Seq::<Seq<char>>::empty());
        assert(joined(Seq::<Seq<char>>::empty()) == Seq::<char>::empty());
        assert(seq![a].last() == a);
        assert(Seq::<char>::empty() + a =~= a);
    }
    assert(joined(seq![b]) =~= b) by {
        assert(seq![b].drop_last() =~= Seq::<Seq<char>>::empty());
        assert(joined(Seq::<Seq<char>>::empty()) == Seq::<char>::empty());
        assert(seq![b].last() == b);
        assert(Seq::<char>::empty() + b =~= b);
    }
    assert(batch_units(seq![a]) == seq![a]);
    assert(batch_units(seq![b]) == seq![b]);
    let empty = Seq::<Seq<char>>::empty();
    assert(append_new(empty, seq![a]) =~= seq![a]) by {
        assert(seq![a].drop_last() =~= empty);
        assert(append_new(empty, empty) == empty);
        assert(!empty.contains(a));
        assert(empty.push(a) =~= seq![a]);
    }
    let first = planned_reactions(seq![for_user], guild, author, now, content, None);
    assert(first == if for_user.user_id == Some(author) { seq![a] } else { empty }) by {
        assert(seq![for_user].drop_last() =~= Seq::<Action>::empty());
        assert(seq![for_user].last() == for_user);
        assert(planned_reactions(Seq::<Action>::empty(), guild, author, now, content, None) == empty);
        assert(disjoint(seq![a], empty));
    }
    assert(!first.contains(b)) by {
        if first.contains(b) {
            let k = choose|k: int| 0 <= k < first.len() && first[k] == b;
            assert(first =~= seq![a]);
            assert(first[k] == a);
        }
    }
    if regex_matches(for_text.regex->0@, content) {
        assert(append_new(first, seq![b]) =~= first.push(b)) by {
            assert(seq![b].drop_last() =~= empty);
            assert(seq![b].last() == b);
            assert(append_new(first, empty) == first);
        }
        assert(disjoint(seq![b], first));
        assert(first.push(b) =~= first + seq![b]);
    } else {
        assert(first + empty =~= first);
    }
}

/// The reaction list after one rule has been considered for a message with
/// text `content` and spelled-out word `word`.
///
/// A rule out of scope, or with a pattern that does not compile, adds
/// nothing. A rule without a pattern offers its reactions. A rule with a
/// pattern offers them once if it matches the text and once more if it
/// matches the spelled-out word.
pub open spec fn rule_step(
    list: Seq<Seq<char>>,
    a: Action,
    guild: u64,
    user: u64,
    now: u64,
    content: Seq<char>,
    word: Option<Seq<char>>,
) -> Seq<Seq<char>> {
    let r = views(a.reactions@);
    if !applies(a, guild, user, now) {
        list
    } else {
        match a.regex {
            None => offered(list, r),
            Some(p) => if !regex_compiles(p@) {
                list
            } else {
                let after_text = if regex_matches(p@, content) {
                    offered(list, r)
                } else {
                    list
                };
                if word matches Some(w) && regex_matches(p@, w) {
                    offered(after_text, r)
                } else {
                    after_text
                }
            },
        }
    }
}

/// The reaction list after all `rules` have been considered in order.
pub open spec fn planned_reactions(
    rules: Seq<Action>,
    guild: u64,
    user: u64,
    now: u64,
    content: Seq<char>,
    word: Option<Seq<char>>,
) -> Seq<Seq<char>>
    decreases rules.len(),
{
    if rules.len() == 0 {
        Seq::empty()
    } else {
        rule_step(
            planned_reactions(rules.drop_last(), guild, user, now, content, word),
            rules.last(),
            guild,
            user,
            now,
            content,
            word,
        )
    }
}

/// The rule matches the spelled-out word, which is then used up.
pub open spec fn consumes(a: Action, guild: u64, user: u64, now: u64, word: Option<Seq<char>>) -> bool {
    &&& applies(a, guild, user, now)
    &&& a.regex matches Some(p)
    &&& regex_compiles(p@)
    &&& word matches Some(w)
    &&& regex_matches(p@, w)
}

/// The ids of the rules that are past their expiration at `now`, in order.
pub open spec fn expired_ids(rules: Seq<Action>, now: u64) -> Seq<i64>
    decreases rules.len(),
{
    if rules.len() == 0 {
        Seq::empty()
    } else {
        let front = expired_ids(rules.drop_last(), now);
        if expired(rules.last(), now) {
            front.push(rules.last().id)
        } else {
            front
        }
    }
}

/// What to do about one message: the reactions to deliver, in order, and the
/// stored rules to delete.
pub struct MessagePlan {
    pub reactions: ReactionSet,
    pub expired: Vec<i64>,
}

/// Holds the anti-evasion state across messages.
pub struct Handler {
    letter_chain: HashMap<u64, (u64, String)>,
}

impl Handler {
    /// The anti-evasion state, per guild.
    pub closed spec fn chain(&self) -> Chain {
        self.letter_chain@.map_values(|v: (u64, String)| (v.0, v.1@))
    }

    pub fn new() -> (r: Handler)
        ensures
            r.chain() == Chain::empty(),
    {
        let r = Handler { letter_chain: HashMap::new() };
        assert(r.chain() =~= Chain::empty());
        r
    }

    /// Feeds a message of `uid` in `gid` to the anti-evasion state, and
    /// returns the word it completes, if any.
    pub fn check_column(&mut self, msg: &str, gid: u64, uid: u64) -> (r: Option<String>)
        ensures
            final(self).chain() == chain_after(old(self).chain(), gid, uid, msg@),
            r matches Some(s) ==> spelled(old(self).chain(), gid, uid, msg@) == Some(s@),
            r is None ==> spelled(old(self).chain(), gid, uid, msg@) is None,
    {
        let ghost start = self.chain();
        let letters = split_graphemes(msg);
        let entry = self.letter_chain.remove(&gid);
        assert(self.chain() =~= start.remove(gid));
        if letters.len() == 1 {
            let letter = letters[0].clone();
            assert(letter@ == extended_graphemes(msg@)[0]);
            match entry {
                Some((user, mut s)) => {
                    if user == uid {
                        s.append(letter.as_str());
                        let word = s.clone();
                        self.letter_chain.insert(gid, (uid, s));
                        assert(self.chain() =~= chain_after(start, gid, uid, msg@));
                        return Some(word);
                    }
                    self.letter_chain.insert(gid, (uid, letter));
                },
                None => {
                    self.letter_chain.insert(gid, (uid, letter));
                },
            }
            assert(self.chain() =~= chain_after(start, gid, uid, msg@));
        }
        None
    }

    /// Decides what to do about a message with text `content` that `uid`
    /// sent in `gid` at `now`, given the stored rules.
    ///
    /// The message first goes to the anti-evasion state. Then each rule in
    /// scope is evaluated in order against the text and against the word the
    /// message completes; a rule whose pattern matches that word uses it up.
    /// Rules whose stored pattern does not compile are skipped. The rules
    /// past their expiration are listed for deletion.
    pub fn message(&mut self, rules: &[Action], gid: u64, uid: u64, content: &str, now: u64) -> (r: MessagePlan)
        ensures
            ({
                let word = spelled(old(self).chain(), gid, uid, content@);
                let after = chain_after(old(self).chain(), gid, uid, content@);
                &&& r.reactions.wf()
                &&& r.reactions@ == planned_reactions(rules@, gid, uid, now, content@, word)
                &&& r.expired@ == expired_ids(rules@, now)
                &&& final(self).chain() == if exists|i: int|
                    0 <= i < rules@.len() && #[trigger] consumes(rules@[i], gid, uid, now, word) {
                    after.remove(gid)
                } else {
                    after
                }
            }),
    {
        let ghost word_spec = spelled(self.chain(), gid, uid, content@);
        let word = self.check_column(content, gid, uid);
        let mut reactions = ReactionSet::new();
        let mut expired: Vec<i64> = Vec::new();
        let mut consumed = false;
        let mut k: usize = 0;
        while k < rules.len()
            invariant
                k <= rules@.len(),
                word matches Some(w) ==> word_spec == Some(w@),
                word is None ==> word_spec is None,
                reactions.wf(),
                reactions@ == planned_reactions(rules@.subrange(0, k as int), gid, uid, now, content@, word_spec),
                expired@ == expired_ids(rules@.subrange(0, k as int), now),
                consumed == exists|i: int| 0 <= i < k && #[trigger] consumes(rules@[i], gid, uid, now, word_spec),
            decreases rules@.len() - k,
        {
            let rule = &rules[k];
            assert(rules@.subrange(0, k + 1).drop_last() =~= rules@.subrange(0, k as int));
            assert(rules@.subrange(0, k + 1).last() == rules@[k as int]);
            let ghost consumed_before = consumed;
            if rule.is_active(gid, uid, now) {
                match &rule.regex {
                    None => reactions.add_reactions(rule.reactions.as_slice()),
                    Some(pattern) => {
                        if let Ok(filter) = compile(pattern.as_str()) {
                            if is_match(&filter, content) {
                                reactions.add_reactions(rule.reactions.as_slice());
                            }
                            if let Some(w) = &word {
                                if is_match(&filter, w.as_str()) {
                                    reactions.add_reactions(rule.reactions.as_slice());
                                    consumed = true;
                                }
                            }
                        }
                    },
                }
            }
            assert(consumed == (consumed_before || consumes(rules@[k as int], gid, uid, now, word_spec)));
            assert(consumed == exists|i: int| 0 <= i < k + 1 && #[trigger] consumes(rules@[i], gid, uid, now, word_spec)) by {
                if consumes(rules@[k as int], gid, uid, now, word_spec) {
                    assert(0 <= k < k + 1);
                }
            }
            if rule.is_expired(now) {
                expired.push(rule.id);
            }
            k += 1;
        }
        assert(rules@.subrange(0, rules@.len() as int) =~= rules@);
        if consumed {
            self.letter_chain.remove(&gid);
        }
        MessagePlan { reactions, expired }
    }
}

} // verus!
