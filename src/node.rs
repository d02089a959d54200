//! The loosely typed document tree that the codecs read and write, and the
//! field lookup rules shared by every record.

use vstd::prelude::*;
use crate::text::{all_digits, digits_value, parse_digits};

verus! {

/// A node of a document tree: a scalar, a sequence, or a map whose entries
/// keep the order in which the document gave them.
///
/// Numbers are classified once, where the document is read: an integer
/// literal that fits `i64` is an `Int`, any other number is a `Float` held as
/// the decimal text the document gave.
#[derive(Debug, PartialEq, Eq)]
pub enum Node {
    Null,
    Bool(bool),
    Int(i64),
    Float(String),
    Str(String),
    List(Vec<Node>),
    Mapping(Vec<(String, Node)>),
}

/// What went wrong while decoding a document.
#[derive(Debug, PartialEq, Eq)]
pub enum DecodeError {
    /// The node under `field` matches none of the shapes it may take.
    ShapeMismatch { field: String },
    /// A number under `field` lies outside its declared bounds.
    RangeViolation { field: String, value: i64 },
    /// A license expression does not parse.
    GrammarError { text: String },
    /// The node under `field` is of another kind than the field requires.
    TypeMismatch { field: String },
    /// A value that decoded could not be put together into an expression.
    InternalInconsistency,
    /// A date map has none of the shapes a date may take; the map itself is
    /// carried for diagnostics.
    UnknownFormat { node: Node },
}

/// The value of an integer literal: an optional minus sign and decimal digits.
pub open spec fn integer_literal(s: Seq<char>) -> Option<int> {
    if all_digits(s) {
        Some(digits_value(s))
    } else if s.len() > 1 && s[0] == '-' && all_digits(s.drop_first()) {
        Some(-digits_value(s.drop_first()))
    } else {
        None
    }
}

/// How a number with the given decimal text is classified.
pub open spec fn number_kind(s: Seq<char>) -> Option<i64> {
    match integer_literal(s) {
        Some(v) => if i64::MIN <= v <= i64::MAX {
            Some(v as i64)
        } else {
            None
        },
        None => None,
    }
}

/// Entries with their keys as character sequences.
pub open spec fn keyed(entries: Seq<(String, Node)>) -> Seq<(Seq<char>, Node)> {
    Seq::new(entries.len(), |i: int| (entries[i].0@, entries[i].1))
}

/// The value under `key` among keyed entries: the first entry that has it,
/// later ones ignored.
#[verifier::opaque]
pub open spec fn find(entries: Seq<(Seq<char>, Node)>, key: Seq<char>) -> Option<Node>
    decreases entries.len(),
{
    if entries.len() == 0 {
        None
    } else {
        let prior = find(entries.drop_last(), key);
        if prior is Some {
            prior
        } else if entries.last().0 == key {
            Some(entries.last().1)
        } else {
            None
        }
    }
}

/// The value under `key` in a map's entries: the first entry that has it.
pub open spec fn lookup(entries: Seq<(String, Node)>, key: Seq<char>) -> Option<Node> {
    find(keyed(entries), key)
}

/// Whether `key` is one of `keys`.
pub open spec fn is_key_of(keys: Seq<&str>, key: Seq<char>) -> bool {
    exists|i: int| 0 <= i < keys.len() && (#[trigger] keys[i])@ == key
}

/// The entries whose key is none of `keys`, in their order.
pub open spec fn unknown_entries<V>(entries: Seq<(String, V)>, keys: Seq<&str>) -> Seq<(String, V)>
    decreases entries.len(),
{
    if entries.len() == 0 {
        entries
    } else {
        let rest = unknown_entries(entries.drop_last(), keys);
        if is_key_of(keys, entries.last().0@) {
            rest
        } else {
            rest.push(entries.last())
        }
    }
}

/// Whether `err` is the type mismatch of a key whose value is not a string.
pub open spec fn text_key_error(e: Seq<(String, Node)>, key: Seq<char>, err: DecodeError) -> bool {
    &&& err matches DecodeError::TypeMismatch { field } && field@ == key
    &&& lookup(e, key) matches Some(n) && !(n is Str)
}

/// The text under `key`, when it is a string.
pub open spec fn text_at(entries: Seq<(String, Node)>, key: Seq<char>) -> Option<String> {
    match lookup(entries, key) {
        Some(Node::Str(s)) => Some(s),
        _ => None,
    }
}

/// Whether `key` is absent or holds a string.
pub open spec fn text_ok(entries: Seq<(String, Node)>, key: Seq<char>) -> bool {
    match lookup(entries, key) {
        None => true,
        Some(Node::Str(_)) => true,
        _ => false,
    }
}

/// Looking up in two runs of entries one after the other finds the first
/// run's value when it has one.
pub proof fn lemma_find_concat(a: Seq<(Seq<char>, Node)>, b: Seq<(Seq<char>, Node)>, key: Seq<char>)
    ensures
        find(a + b, key) == (if find(a, key) is Some {
            find(a, key)
        } else {
            find(b, key)
        }),
    decreases b.len(),
{
    reveal(find);
    if b.len() == 0 {
        assert(a + b =~= a);
    } else {
        lemma_find_concat(a, b.drop_last(), key);
        assert((a + b).drop_last() =~= a + b.drop_last());
    }
}

/// Entries none of which has `key` give nothing under it.
pub proof fn lemma_find_absent(a: Seq<(Seq<char>, Node)>, key: Seq<char>)
    requires
        forall|i: int| 0 <= i < a.len() ==> (#[trigger] a[i]).0 != key,
    ensures
        find(a, key) is None,
    decreases a.len(),
{
    reveal(find);
    if a.len() > 0 {
        lemma_find_absent(a.drop_last(), key);
    }
}

/// Leaving out the entries of known keys keeps what an unknown key holds and
/// leaves nothing under a known one.
pub proof fn lemma_unknown_entries(entries: Seq<(String, Node)>, keys: Seq<&str>, key: Seq<char>)
    ensures
        lookup(unknown_entries(entries, keys), key) == (if is_key_of(keys, key) {
            None
        } else {
            lookup(entries, key)
        }),
    decreases entries.len(),
{
    reveal(find);
    if entries.len() > 0 {
        lemma_unknown_entries(entries.drop_last(), keys, key);
        let rest = unknown_entries(entries.drop_last(), keys);
        assert(keyed(entries).drop_last() =~= keyed(entries.drop_last()));
        if !is_key_of(keys, entries.last().0@) {
            assert(keyed(rest.push(entries.last())).drop_last() =~= keyed(rest));
        }
    }
}

/// The entries whose key is not `key`, in their order.
pub open spec fn without_key(entries: Seq<(String, Node)>, key: Seq<char>) -> Seq<(String, Node)>
    decreases entries.len(),
{
    if entries.len() == 0 {
        entries
    } else {
        let rest = without_key(entries.drop_last(), key);
        if entries.last().0@ == key {
            rest
        } else {
            rest.push(entries.last())
        }
    }
}

/// Removing one key leaves what the other keys hold.
pub proof fn lemma_without_key(entries: Seq<(String, Node)>, gone: Seq<char>, key: Seq<char>)
    requires
        key != gone,
    ensures
        lookup(without_key(entries, gone), key) == lookup(entries, key),
    decreases entries.len(),
{
    reveal(find);
    if entries.len() > 0 {
        lemma_without_key(entries.drop_last(), gone, key);
        let rest = without_key(entries.drop_last(), gone);
        assert(keyed(entries).drop_last() =~= keyed(entries.drop_last()));
        if entries.last().0@ != gone {
            assert(keyed(rest.push(entries.last())).drop_last() =~= keyed(rest));
        }
    }
}

/// Removing a known key does not change which entries are unknown.
pub proof fn lemma_without_known_key(entries: Seq<(String, Node)>, gone: Seq<char>, keys: Seq<&str>)
    requires
        is_key_of(keys, gone),
    ensures
        unknown_entries(without_key(entries, gone), keys) == unknown_entries(entries, keys),
    decreases entries.len(),
{
    if entries.len() > 0 {
        lemma_without_known_key(entries.drop_last(), gone, keys);
        let rest = without_key(entries.drop_last(), gone);
        if entries.last().0@ != gone {
            assert(rest.push(entries.last()).drop_last() =~= rest);
        }
    }
}

/// Takes out the first entry under `key`, and drops any later one.
pub fn take_field(entries: &mut Vec<(String, Node)>, key: &str) -> (r: Option<Node>)
    ensures
        r == lookup(old(entries)@, key@),
        final(entries)@ == without_key(old(entries)@, key@),
{
    let ghost initial = old(entries)@;
    let mut kept: Vec<(String, Node)> = Vec::new();
    let mut found: Option<Node> = None;
    let ghost mut i: int = 0;
    proof {
        reveal(find);
        assert(keyed(initial.subrange(0, 0)).len() == 0);
    }
    while entries.len() > 0
        invariant
            0 <= i <= initial.len(),
            entries@ == initial.subrange(i, initial.len() as int),
            kept@ == without_key(initial.subrange(0, i), key@),
            found == lookup(initial.subrange(0, i), key@),
        decreases entries@.len(),
    {
        proof {
            reveal(find);
        }
        let (k, v) = entries.remove(0);
        proof {
            assert(initial.subrange(0, i + 1).drop_last() =~= initial.subrange(0, i));
            assert(keyed(initial.subrange(0, i + 1)).drop_last() =~= keyed(initial.subrange(0, i)));
            assert(initial[i] == (k, v));
            assert(initial.subrange(0, i + 1).last() == initial[i]);
        }
        if crate::text::same_text(k.as_str(), key) {
            if found.is_none() {
                found = Some(v);
            }
        } else {
            kept.push((k, v));
        }
        proof {
            i = i + 1;
        }
        assert(entries@ =~= initial.subrange(i, initial.len() as int));
    }
    assert(initial.subrange(0, i) =~= initial);
    *entries = kept;
    found
}

/// Concatenation of sequences is associative.
pub proof fn lemma_seq_assoc<A>(a: Seq<A>, b: Seq<A>, c: Seq<A>)
    ensures
        (a + b) + c == a + (b + c),
{
    assert((a + b) + c =~= a + (b + c));
}

/// The entries left when known keys are dropped from a prefix begin those
/// left from the whole.
pub proof fn lemma_unknown_prefix(e: Seq<(String, Node)>, n: int, keys: Seq<&str>)
    requires
        0 <= n <= e.len(),
    ensures
        unknown_entries(e.subrange(0, n), keys).len() <= unknown_entries(e, keys).len(),
        forall|j: int|
            0 <= j < unknown_entries(e.subrange(0, n), keys).len() ==> (#[trigger] unknown_entries(
                e.subrange(0, n),
                keys,
            )[j]) == unknown_entries(e, keys)[j],
    decreases e.len() - n,
{
    if n < e.len() {
        lemma_unknown_prefix(e, n + 1, keys);
        assert(e.subrange(0, n + 1).drop_last() =~= e.subrange(0, n));
        let un = unknown_entries(e.subrange(0, n), keys);
        let un1 = unknown_entries(e.subrange(0, n + 1), keys);
        assert forall|j: int| 0 <= j < un.len() implies #[trigger] un[j] == un1[j] by {
            if un1.len() > un.len() {
                assert(un1 == un.push(e.subrange(0, n + 1).last()));
            }
        }
    } else {
        assert(e.subrange(0, n) =~= e);
    }
}

/// The index of the first entry under `key`.
pub fn find_key(entries: &Vec<(String, Node)>, key: &str) -> (r: Option<usize>)
    ensures
        match r {
            Some(i) => i < entries@.len() && lookup(entries@, key@) == Some(entries@[i as int].1)
                && entries@[i as int].0@ == key@,
            None => lookup(entries@, key@) is None,
        },
{
    reveal(find);
    let mut i: usize = 0;
    while i < entries.len()
        invariant
            0 <= i <= entries@.len(),
            find(keyed(entries@).subrange(0, i as int), key@) is None,
        decreases entries@.len() - i,
    {
        proof {
            reveal(find);
        }
        let ghost prefix = keyed(entries@).subrange(0, i as int + 1);
        assert(prefix.drop_last() =~= keyed(entries@).subrange(0, i as int));
        proof {
            lemma_find_concat(prefix, keyed(entries@).subrange(i as int + 1, entries@.len() as int), key@);
            assert(prefix + keyed(entries@).subrange(i as int + 1, entries@.len() as int) =~= keyed(entries@));
        }
        if crate::text::same_text(entries[i].0.as_str(), key) {
            return Some(i);
        }
        i = i + 1;
    }
    assert(keyed(entries@).subrange(0, i as int) =~= keyed(entries@));
    proof {
        reveal(find);
    }
    None
}

/// The text under `key`; a type mismatch naming `key` when the value there
/// is not a string.
pub fn text_field(entries: &Vec<(String, Node)>, key: &str) -> (r: Result<Option<String>, DecodeError>)
    ensures
        text_ok(entries@, key@) ==> r == Ok::<Option<String>, DecodeError>(text_at(entries@, key@)),
        !text_ok(entries@, key@) ==> (r matches Err(DecodeError::TypeMismatch { field }) && field@ == key@),
{
    match find_key(entries, key) {
        None => Ok(None),
        Some(i) => match &entries[i].1 {
            Node::Str(s) => Ok(Some(s.clone())),
            _ => Err(DecodeError::TypeMismatch { field: key.to_owned() }),
        },
    }
}

/// Whether `key` is one of `keys`.
pub fn is_known_key(keys: &[&str], key: &str) -> (r: bool)
    ensures
        r == is_key_of(keys@, key@),
{
    let mut i: usize = 0;
    while i < keys.len()
        invariant
            0 <= i <= keys@.len(),
            forall|j: int| 0 <= j < i ==> (#[trigger] keys@[j])@ != key@,
        decreases keys@.len() - i,
    {
        if crate::text::same_text(keys[i], key) {
            return true;
        }
        i = i + 1;
    }
    false
}

/// Takes out the entries whose key is none of `keys`, in their order; the
/// others are dropped.
pub fn take_unknown<V>(entries: Vec<(String, V)>, keys: &[&str]) -> (r: Vec<(String, V)>)
    ensures
        r@ == unknown_entries(entries@, keys@),
{
    let ghost initial = entries@;
    let mut rest = entries;
    let mut kept: Vec<(String, V)> = Vec::new();
    let ghost mut i: int = 0;
    while rest.len() > 0
        invariant
            0 <= i <= initial.len(),
            rest@ == initial.subrange(i, initial.len() as int),
            kept@ == unknown_entries(initial.subrange(0, i), keys@),
        decreases rest@.len(),
    {
        let (k, v) = rest.remove(0);
        proof {
            assert(initial.subrange(0, i + 1).drop_last() =~= initial.subrange(0, i));
            assert(initial[i] == (k, v));
            assert(initial.subrange(0, i + 1).last() == initial[i]);
        }
        if !is_known_key(keys, k.as_str()) {
            kept.push((k, v));
        }
        proof {
            i = i + 1;
        }
        assert(rest@ =~= initial.subrange(i, initial.len() as int));
    }
    assert(initial.subrange(0, i) =~= initial);
    kept
}

/// What an encoder is to write under a key: a string with the given text, or
/// a node as it stands.
pub enum Emitted {
    Text(Seq<char>),
    Value(Node),
    Satisfies(spec_fn(Node) -> bool),
}

/// Whether `n` is what `e` asks for.
pub open spec fn emitted_as(n: Node, e: Emitted) -> bool {
    match e {
        Emitted::Text(t) => n matches Node::Str(s) && s@ == t,
        Emitted::Value(v) => n == v,
        Emitted::Satisfies(f) => f(n),
    }
}

/// Whether the entries `out` are, one for one, the keys and values `want`
/// asks for.
#[verifier::opaque]
pub open spec fn emits(out: Seq<(String, Node)>, want: Seq<(Seq<char>, Emitted)>) -> bool {
    &&& out.len() == want.len()
    &&& forall|i: int|
        0 <= i < out.len() ==> (#[trigger] out[i]).0@ == want[i].0 && emitted_as(out[i].1, want[i].1)
}

/// A text to write under `key`, when there is one.
pub open spec fn want_text(key: Seq<char>, v: Option<String>) -> Seq<(Seq<char>, Emitted)> {
    match v {
        Some(s) => seq![(key, Emitted::Text(s@))],
        None => Seq::empty(),
    }
}

/// Entries to write as they stand.
pub open spec fn want_entries(e: Seq<(String, Node)>) -> Seq<(Seq<char>, Emitted)> {
    Seq::new(e.len(), |i: int| (e[i].0@, Emitted::Value(e[i].1)))
}

/// Appends the entry `(key, text)` when there is a text.
pub(crate) fn push_text(
    out: &mut Vec<(String, Node)>,
    key: &str,
    v: Option<String>,
    Ghost(want): Ghost<Seq<(Seq<char>, Emitted)>>,
)
    requires
        emits(old(out)@, want),
    ensures
        emits(final(out)@, want + want_text(key@, v)),
{
    reveal(emits);
    match v {
        Some(s) => {
            out.push((key.to_owned(), Node::Str(s)));
        },
        None => {},
    }
    proof {
        let w2 = want + want_text(key@, v);
        assert forall|i: int| 0 <= i < out@.len() implies (#[trigger] out@[i]).0@ == w2[i].0
            && emitted_as(out@[i].1, w2[i].1) by {
            if i < want.len() {
                assert(out@[i] == old(out)@[i]);
            }
        }
    }
}

/// Appends the entry `(key, n)`, where `n` is what `e` asks for.
pub(crate) fn push_node(
    out: &mut Vec<(String, Node)>,
    key: &str,
    n: Node,
    Ghost(want): Ghost<Seq<(Seq<char>, Emitted)>>,
    Ghost(e): Ghost<Emitted>,
)
    requires
        emits(old(out)@, want),
        emitted_as(n, e),
    ensures
        emits(final(out)@, want + seq![(key@, e)]),
{
    reveal(emits);
    out.push((key.to_owned(), n));
    proof {
        let w2 = want + seq![(key@, e)];
        assert forall|i: int| 0 <= i < out@.len() implies (#[trigger] out@[i]).0@ == w2[i].0
            && emitted_as(out@[i].1, w2[i].1) by {
            if i < want.len() {
                assert(out@[i] == old(out)@[i]);
            }
        }
    }
}

/// The entry `(key, e)` when `present`, else nothing.
pub open spec fn opt_want(key: Seq<char>, present: bool, e: Emitted) -> Seq<(Seq<char>, Emitted)> {
    if present {
        seq![(key, e)]
    } else {
        Seq::empty()
    }
}

/// Appends the entry `(key, n)` when there is a node.
pub(crate) fn push_opt(
    out: &mut Vec<(String, Node)>,
    key: &str,
    n: Option<Node>,
    Ghost(want): Ghost<Seq<(Seq<char>, Emitted)>>,
    Ghost(e): Ghost<Emitted>,
)
    requires
        emits(old(out)@, want),
        n matches Some(x) ==> emitted_as(x, e),
    ensures
        emits(final(out)@, want + opt_want(key@, n is Some, e)),
{
    match n {
        Some(x) => push_node(out, key, x, Ghost(want), Ghost(e)),
        None => {
            assert(want + opt_want(key@, false, e) =~= want);
        },
    }
}

/// Appends entries as they stand.
pub(crate) fn push_entries(
    out: &mut Vec<(String, Node)>,
    extra: Vec<(String, Node)>,
    Ghost(want): Ghost<Seq<(Seq<char>, Emitted)>>,
)
    requires
        emits(old(out)@, want),
    ensures
        emits(final(out)@, want + want_entries(extra@)),
{
    reveal(emits);
    let ghost e = extra@;
    let mut extra = extra;
    out.append(&mut extra);
    proof {
        let w2 = want + want_entries(e);
        assert forall|i: int| 0 <= i < out@.len() implies (#[trigger] out@[i]).0@ == w2[i].0
            && emitted_as(out@[i].1, w2[i].1) by {
            if i < want.len() {
                assert(out@[i] == old(out)@[i]);
            } else {
                assert(out@[i] == e[i - want.len()]);
            }
        }
    }
}

/// What `want` asks to be written under `key`: its first entry with that
/// key.
#[verifier::opaque]
pub open spec fn want_find(want: Seq<(Seq<char>, Emitted)>, key: Seq<char>) -> Option<Emitted>
    decreases want.len(),
{
    if want.len() == 0 {
        None
    } else {
        let prior = want_find(want.drop_last(), key);
        if prior is Some {
            prior
        } else if want.last().0 == key {
            Some(want.last().1)
        } else {
            None
        }
    }
}

/// Whether two optional values agree: both absent, or both present and
/// equal, where two strings agree by their text, and by kind alone when
/// `loose`.
pub open spec fn faithful_at(a: Option<Node>, b: Option<Node>, loose: bool) -> bool {
    match (a, b) {
        (None, None) => true,
        (Some(Node::Str(x)), Some(Node::Str(y))) => loose || x@ == y@,
        (Some(x), Some(y)) => x == y,
        _ => false,
    }
}

/// Entries that were written as `want` asks hold, under each key, what
/// `want` asks for there.
pub proof fn lemma_emits_lookup(out: Seq<(String, Node)>, want: Seq<(Seq<char>, Emitted)>, key: Seq<char>)
    requires
        emits(out, want),
    ensures
        match want_find(want, key) {
            None => lookup(out, key) is None,
            Some(e) => lookup(out, key) matches Some(n) && emitted_as(n, e),
        },
    decreases want.len(),
{
    reveal(find);
    reveal(want_find);
    reveal(emits);
    if want.len() > 0 {
        assert(emits(out.drop_last(), want.drop_last())) by {
            reveal(emits);
            assert forall|i: int| 0 <= i < out.drop_last().len() implies (#[trigger] out.drop_last()[i]).0@
                == want.drop_last()[i].0 && emitted_as(out.drop_last()[i].1, want.drop_last()[i].1) by {
                assert(out.drop_last()[i] == out[i]);
            }
        }
        lemma_emits_lookup(out.drop_last(), want.drop_last(), key);
        assert(keyed(out).drop_last() =~= keyed(out.drop_last()));
        assert(out[out.len() - 1].0@ == want[want.len() - 1].0);
    }
}

/// Looking up in two runs of wanted entries finds the first run's entry when
/// it has one.
pub broadcast proof fn lemma_want_find_concat(a: Seq<(Seq<char>, Emitted)>, b: Seq<(Seq<char>, Emitted)>, key: Seq<char>)
    ensures
        #[trigger] want_find(a + b, key) == (if want_find(a, key) is Some {
            want_find(a, key)
        } else {
            want_find(b, key)
        }),
    decreases b.len(),
{
    reveal(want_find);
    if b.len() == 0 {
        assert(a + b =~= a);
    } else {
        lemma_want_find_concat(a, b.drop_last(), key);
        assert((a + b).drop_last() =~= a + b.drop_last());
    }
}

/// A wanted text is found under its own key only.
pub broadcast proof fn lemma_want_find_text(k: Seq<char>, v: Option<String>, key: Seq<char>)
    ensures
        #[trigger] want_find(want_text(k, v), key) == (if v is Some && k == key {
            Some(Emitted::Text(v->Some_0@))
        } else {
            None
        }),
{
    reveal_with_fuel(want_find, 2);
    if v is Some {
        assert(want_text(k, v).drop_last() =~= Seq::<(Seq<char>, Emitted)>::empty());
    }
}

/// A wanted optional entry is found under its own key only, when present.
pub broadcast proof fn lemma_want_find_opt(k: Seq<char>, present: bool, e: Emitted, key: Seq<char>)
    ensures
        #[trigger] want_find(opt_want(k, present, e), key) == (if present && k == key {
            Some(e)
        } else {
            None
        }),
{
    reveal_with_fuel(want_find, 2);
    if present {
        assert(opt_want(k, present, e).drop_last() =~= Seq::<(Seq<char>, Emitted)>::empty());
    }
}

/// Wanted entries none of which has `key` give nothing under it.
pub proof fn lemma_want_find_absent(w: Seq<(Seq<char>, Emitted)>, key: Seq<char>)
    requires
        forall|i: int| 0 <= i < w.len() ==> (#[trigger] w[i]).0 != key,
    ensures
        want_find(w, key) is None,
    decreases w.len(),
{
    reveal(want_find);
    if w.len() > 0 {
        lemma_want_find_absent(w.drop_last(), key);
    }
}

/// No entry left by dropping the known keys has a known key.
pub proof fn lemma_unknown_entries_keys<V>(x: Seq<(String, V)>, keys: Seq<&str>)
    ensures
        forall|i: int|
            0 <= i < unknown_entries(x, keys).len() ==> !is_key_of(
                keys,
                (#[trigger] unknown_entries(x, keys)[i]).0@,
            ),
    decreases x.len(),
{
    if x.len() > 0 {
        lemma_unknown_entries_keys(x.drop_last(), keys);
        let rest = unknown_entries(x.drop_last(), keys);
        if !is_key_of(keys, x.last().0@) {
            assert forall|i: int| 0 <= i < rest.push(x.last()).len() implies !is_key_of(
                keys,
                (#[trigger] rest.push(x.last())[i]).0@,
            ) by {
                if i < rest.len() {
                    assert(rest.push(x.last())[i] == rest[i]);
                }
            }
        }
    }
}

/// Entries to write as they stand are found as the entries hold them.
pub proof fn lemma_want_find_entries(x: Seq<(String, Node)>, key: Seq<char>)
    ensures
        want_find(want_entries(x), key) == match lookup(x, key) {
            Some(n) => Some(Emitted::Value(n)),
            None => None,
        },
    decreases x.len(),
{
    reveal(find);
    reveal(want_find);
    if x.len() > 0 {
        lemma_want_find_entries(x.drop_last(), key);
        assert(want_entries(x).drop_last() =~= want_entries(x.drop_last()));
        assert(keyed(x).drop_last() =~= keyed(x.drop_last()));
    }
}

impl Node {
    /// Classifies a number by its decimal text: an integer literal that fits
    /// `i64` becomes `Int`, anything else `Float` with the text kept.
    pub fn number(text: &str) -> (r: Node)
        ensures
            match number_kind(text@) {
                Some(v) => r == Node::Int(v),
                None => r matches Node::Float(t) && t@ == text@,
            },
    {
        let n = text.unicode_len();
        if n > 1 && text.get_char(0) == '-' {
            let rest = text.substring_char(1, n);
            assert(rest@ =~= text@.drop_first());
            proof {
                assert(!all_digits(text@)) by {
                    assert(!crate::text::is_digit(text@[0]));
                }
            }
            match parse_digits(rest) {
                Some(m) => {
                    if m <= 0x8000_0000_0000_0000u64 {
                        return Node::Int((0i128 - m as i128) as i64);
                    }
                },
                None => {},
            }
        } else {
            match parse_digits(text) {
                Some(m) => {
                    if m <= 0x7fff_ffff_ffff_ffffu64 {
                        return Node::Int(m as i64);
                    }
                },
                None => {
                    proof {
                        if all_digits(text@) && n > 1 {
                            assert(crate::text::is_digit(text@[0]));
                        }
                    }
                },
            }
        }
        Node::Float(text.to_owned())
    }
}

} // verus!
