//! What the text operations do to texts, and which scopes a rule names.

use vstd::prelude::*;

use crate::address::{anchor, bare_domain};
use crate::protocol::ScopeRule;
use crate::text::{
    first_pos, first_segment, last_segment, lemma_first_pos, lemma_last_pos_unique,
    segment_before_last, segments, trimmed, unescaped, white_space, without_leading,
    without_trailing,
};

verus! {

// Trimming

/// Whether all characters of a text are white space.
pub open spec fn blank(s: Seq<char>) -> bool {
    forall|i: int| 0 <= i < s.len() ==> white_space(#[trigger] s[i])
}

proof fn lemma_without_leading(s: Seq<char>) -> (head: Seq<char>)
    ensures
        blank(head),
        s == head + without_leading(s),
        without_leading(s).len() > 0 ==> !white_space(without_leading(s)[0]),
    decreases s.len(),
{
    if s.len() > 0 && white_space(s[0]) {
        let head = lemma_without_leading(s.skip(1));
        let all = seq![s[0]] + head;
        assert(s == seq![s[0]] + s.skip(1));
        assert(s == all + without_leading(s));
        all
    } else {
        assert(s == Seq::<char>::empty() + s);
        Seq::empty()
    }
}

proof fn lemma_without_trailing(s: Seq<char>) -> (tail: Seq<char>)
    ensures
        blank(tail),
        s == without_trailing(s) + tail,
        without_trailing(s).len() > 0 ==> !white_space(without_trailing(s).last()),
    decreases s.len(),
{
    if s.len() > 0 && white_space(s.last()) {
        let tail = lemma_without_trailing(s.drop_last());
        let all = tail.push(s.last());
        assert(s == s.drop_last().push(s.last()));
        assert(s == without_trailing(s) + all);
        all
    } else {
        assert(s == s + Seq::<char>::empty());
        Seq::empty()
    }
}

/// To trim a text takes white space from its ends, all of it, and nothing else.
pub proof fn trimming_takes_white_space_only(s: Seq<char>)
    ensures
        exists|head: Seq<char>, tail: Seq<char>|
            #![trigger blank(head), blank(tail)]
            blank(head) && blank(tail) && s == head + trimmed(s) + tail,
        trimmed(s).len() > 0 ==> !white_space(trimmed(s)[0]) && !white_space(trimmed(s).last()),
{
    let head = lemma_without_leading(s);
    let core = without_leading(s);
    let tail = lemma_without_trailing(core);
    assert(s == head + trimmed(s) + tail);
    if trimmed(s).len() > 0 {
        assert(core[0] == trimmed(s)[0]);
    }
}

// Parts

/// What stands behind the last separator is the part behind it.
pub proof fn last_part(head: Seq<char>, c: char, tail: Seq<char>)
    requires
        !tail.contains(c),
    ensures
        last_segment(head + seq![c] + tail, c) == tail,
        last_segment(tail, c) == tail,
{
    let s = head + seq![c] + tail;
    let p = head.len() as int;
    assert(s[p] == c);
    assert forall|i: int| p < i < s.len() implies s[i] != c by {
        assert(s[i] == tail[i - p - 1]);
    }
    lemma_last_pos_unique(s, c, p);
    assert(s.skip(p + 1) == tail);
    lemma_last_pos_unique(tail, c, -1);
    assert(tail.skip(0) == tail);
}

/// What stands before the first separator is the part before it.
pub proof fn first_part(head: Seq<char>, c: char, tail: Seq<char>)
    requires
        !head.contains(c),
    ensures
        first_segment(head + seq![c] + tail, c) == head,
{
    let s = head + seq![c] + tail;
    lemma_first_pos(s, c);
    let p = head.len() as int;
    assert(s[p] == c);
    assert(s.contains(c));
    if first_pos(s, c) < p {
        assert(head[first_pos(s, c)] == c);
    }
    assert(s.take(p) == head);
}

/// An address is its local part, an `@` and its bare domain. On a system with its
/// own domain the address is anchored at the bare domain; on a shared domain, at
/// the system id behind the dot of its local part.
pub proof fn addresses_have_two_parts(
    system_id: Seq<char>,
    profile: Seq<char>,
    owner: Seq<char>,
    domain: Seq<char>,
)
    requires
        !domain.contains('@'),
        !profile.contains('@'),
        !owner.contains('@'),
        !owner.contains('.'),
    ensures
        bare_domain(profile + seq!['@'] + domain) == domain,
        segment_before_last(profile + seq!['@'] + domain, '@') == profile,
        !"shared-"@.is_prefix_of(system_id) ==> anchor(system_id, profile + seq!['@'] + domain)
            == domain,
        "shared-"@.is_prefix_of(system_id) ==> anchor(
            system_id,
            profile + seq!['.'] + owner + seq!['@'] + domain,
        ) == owner + "@"@ + domain,
{
    lemma_local_part(profile, domain);
    let local = profile + seq!['.'] + owner;
    assert(!local.contains('@')) by {
        if local.contains('@') {
            let i = choose|i: int| 0 <= i < local.len() && local[i] == '@';
            if i < profile.len() {
                assert(profile[i] == '@');
            } else if i > profile.len() {
                assert(owner[i - profile.len() - 1] == '@');
            }
        }
    }
    lemma_local_part(local, domain);
    last_part(profile, '.', owner);
}

proof fn lemma_local_part(local: Seq<char>, domain: Seq<char>)
    requires
        !domain.contains('@'),
        !local.contains('@'),
    ensures
        last_segment(local + seq!['@'] + domain, '@') == domain,
        segment_before_last(local + seq!['@'] + domain, '@') == local,
{
    let s = local + seq!['@'] + domain;
    let p = local.len() as int;
    last_part(local, '@', domain);
    last_part(domain, '@', local);
    assert forall|i: int| p < i < s.len() implies s[i] != '@' by {
        assert(s[i] == domain[i - p - 1]);
    }
    lemma_last_pos_unique(s, '@', p);
    assert(s.take(p) == local);
}

/// Texts put together with a separator between them.
pub open spec fn joined(parts: Seq<Seq<char>>, c: char) -> Seq<char>
    decreases parts.len(),
{
    if parts.len() == 0 {
        Seq::empty()
    } else if parts.len() == 1 {
        parts[0]
    } else {
        parts[0] + seq![c] + joined(parts.skip(1), c)
    }
}

/// The segments of a text hold no separator, and put together they are the text.
pub proof fn segments_make_the_text(s: Seq<char>, c: char)
    ensures
        segments(s, c).len() > 0,
        joined(segments(s, c), c) == s,
        forall|i: int|
            0 <= i < segments(s, c).len() ==> !(#[trigger] segments(s, c)[i]).contains(c),
    decreases s.len(),
{
    lemma_first_pos(s, c);
    if s.contains(c) {
        let p = first_pos(s, c);
        let rest = s.skip(p + 1);
        let first = first_segment(s, c);
        segments_make_the_text(rest, c);
        let all = segments(s, c);
        assert(all == seq![first] + segments(rest, c));
        assert(all.skip(1) == segments(rest, c));
        assert(joined(all, c) == first + seq![c] + rest);
        assert(first + seq![c] + rest == s);
        assert forall|i: int| 0 <= i < all.len() implies !(#[trigger] all[i]).contains(c) by {
            if i == 0 {
                if first.contains(c) {
                    let j = choose|j: int| 0 <= j < first.len() && first[j] == c;
                    assert(s[j] == c);
                }
            } else {
                assert(all[i] == segments(rest, c)[i - 1]);
            }
        }
    }
}

/// A text without backslashes is read as it stands, and an escaped dot behind one
/// as a dot.
pub proof fn escaped_dots_are_read_as_dots(head: Seq<char>, tail: Seq<char>)
    requires
        !head.contains('\\'),
    ensures
        unescaped(head) == head,
        unescaped(head + seq!['\\', '.'] + tail) == head + seq!['.'] + unescaped(tail),
    decreases head.len(),
{
    let all = head + seq!['\\', '.'] + tail;
    if head.len() == 0 {
        assert(all[0] == '\\' && all[1] == '.');
        assert(all.skip(2) == tail);
    } else {
        let rest = head.skip(1);
        assert(head[0] != '\\');
        if rest.contains('\\') {
            let i = choose|i: int| 0 <= i < rest.len() && rest[i] == '\\';
            assert(head[i + 1] == '\\');
        }
        escaped_dots_are_read_as_dots(rest, tail);
        assert(head == seq![head[0]] + rest);
        assert(all.skip(1) == rest + seq!['\\', '.'] + tail);
        assert(all[0] == head[0]);
        assert(seq![head[0]] + (rest + seq!['.'] + unescaped(tail)) == head + seq!['.']
            + unescaped(tail));
    }
}

// Scopes

/// Which scopes a rule admits: the agent scope for what is an agent's own, the
/// platform scope for what spans systems, the bridge scope for deliveries, and the
/// system scope for all but what is read by agents alone.
pub proof fn rules_name_their_scopes(rule: ScopeRule)
    ensures
        rule.scopes().contains("system"@) <==> rule != ScopeRule::Agent,
        rule.scopes().contains("agent"@) <==> rule == ScopeRule::Agent || rule
            == ScopeRule::AgentOrAdmin,
        rule.scopes().contains("agent_admin"@) <==> rule == ScopeRule::SystemOrAgentAdmin || rule
            == ScopeRule::AgentOrAdmin,
        rule.scopes().contains("platform"@) <==> rule == ScopeRule::PlatformOrSystem || rule
            == ScopeRule::AgentOrAdmin,
        rule.scopes().contains("bridge"@) <==> rule == ScopeRule::SystemOrBridge,
        rule.scopes().no_duplicates(),
{
    reveal_strlit("system");
    reveal_strlit("agent");
    reveal_strlit("agent_admin");
    reveal_strlit("platform");
    reveal_strlit("bridge");
    assert("system"@.len() == 6 && "agent"@.len() == 5 && "agent_admin"@.len() == 11
        && "platform"@.len() == 8 && "bridge"@.len() == 6);
    assert("system"@[0] == 's' && "bridge"@[0] == 'b');
    let scopes = rule.scopes();
    assert(scopes.len() >= 1);
    let first = scopes[0];
    assert(scopes.contains(first));
    if scopes.len() > 1 {
        assert(scopes.contains(scopes[1]));
    }
    if scopes.len() > 2 {
        assert(scopes.contains(scopes[2]));
        assert(scopes.contains(scopes[3]));
    }
}

} // verus!
