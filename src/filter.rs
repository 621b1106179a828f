use vstd::prelude::*;

verus! {

/// `regex::Regex`, carried through unread.
#[verifier::external_type_specification]
#[verifier::external_body]
pub struct ExRegex(regex::Regex);

/// The exclusion rule: the token `SPK` with no word character on either side.
pub const SPK_PATTERN: &'static str = "\\bSPK\\b";

/// Whether `regex::Regex::is_match` finds the exclusion rule in a text.
pub uninterp spec fn spk_match(text: Seq<char>) -> bool;

/// A top-level calendar component, with what the filter reads of it beside the
/// component itself.
#[derive(Debug, Clone, PartialEq, Eq)]
pub enum Component<T> {
    /// An event and its description, if it has one.
    Event { body: T, description: Option<String> },
    /// Any component that is no event (a time zone block, a to-do, ...).
    Other(T),
}

/// The component itself, without what the filter reads of it.
pub open spec fn body_of<T>(c: Component<T>) -> T {
    match c {
        Component::Event { body, .. } => body,
        Component::Other(body) => body,
    }
}

/// The components that the filter keeps, without what it read of them.
pub open spec fn kept_bodies<T>(s: Seq<Component<T>>) -> Seq<T> {
    kept(s).map_values(|c: Component<T>| body_of(c))
}

/// Whether the filter keeps a component: every non-event, every event without
/// a description or with an empty one, and every event whose description does
/// not match the exclusion rule.
pub open spec fn is_retained<T>(c: Component<T>) -> bool {
    match c {
        Component::Event { description: Some(d), .. } => d@.len() == 0 || !spk_match(d@),
        _ => true,
    }
}

/// The same elements in the opposite order.
pub(crate) fn reversed<T>(v: Vec<T>) -> (r: Vec<T>)
    ensures
        r.len() == v.len(),
        forall|j: int| 0 <= j < r.len() ==> r@[j] == v@[v.len() - 1 - j],
{
    let ghost orig = v@;
    let n = v.len();
    let mut rest = v;
    let mut rev: Vec<T> = Vec::new();
    while rest.len() > 0
        invariant
            rest@ == orig.subrange(0, rest.len() as int),
            rest.len() + rev.len() == n,
            n == orig.len(),
            forall|j: int| 0 <= j < rev.len() ==> rev@[j] == orig[n - 1 - j],
        decreases rest.len(),
    {
        match rest.pop() {
            Some(c) => rev.push(c),
            None => {},
        }
    }
    rev
}

/// The components that the filter keeps, in their order.
pub open spec fn kept<T>(s: Seq<Component<T>>) -> Seq<Component<T>>
    decreases s.len(),
{
    if s.len() == 0 {
        s
    } else if is_retained(s.last()) {
        kept(s.drop_last()).push(s.last())
    } else {
        kept(s.drop_last())
    }
}

/// Relies on `regex::Regex::new`, which fails only on invalid syntax or an
/// exceeded size limit; the exclusion rule is short and well formed.
#[verifier::external_body]
fn compile_pattern(pattern: &str) -> (r: Option<regex::Regex>)
    ensures
        pattern@ == SPK_PATTERN@ ==> r is Some,
{
    regex::Regex::new(pattern).ok()
}

/// The compiled exclusion rule. It is built once and shared by every request.
pub struct EventFilter {
    regex: regex::Regex,
}

impl EventFilter {
    /// Compiles the exclusion rule.
    pub fn new() -> (r: Option<EventFilter>)
        ensures
            r is Some,
    {
        match compile_pattern(SPK_PATTERN) {
            Some(regex) => Some(EventFilter { regex }),
            None => None,
        }
    }

    /// Relies on `regex::Regex::is_match`; the private regex is only ever
    /// compiled from `SPK_PATTERN`, in `new`.
    #[verifier::external_body]
    fn is_match(&self, text: &str) -> (r: bool)
        ensures
            r == spk_match(text@),
    {
        self.regex.is_match(text)
    }

    /// Whether the filter keeps one component.
    pub fn retains<T>(&self, c: &Component<T>) -> (r: bool)
        ensures
            r == is_retained(*c),
    {
        match c {
            Component::Event { description: Some(d), .. } => d.as_str().is_empty() || !self.is_match(
                d.as_str(),
            ),
            _ => true,
        }
    }

    /// Removes every event whose description matches the exclusion rule; all
    /// other components stay, in their order.
    pub fn apply<T>(&self, doc: Vec<Component<T>>) -> (r: Vec<Component<T>>)
        ensures
            r@ == kept(doc@),
    {
        let ghost orig = doc@;
        let n = doc.len();
        let mut rev = reversed(doc);
        let mut out: Vec<Component<T>> = Vec::new();
        while rev.len() > 0
            invariant
                rev.len() <= n,
                n == orig.len(),
                forall|j: int| 0 <= j < rev.len() ==> rev@[j] == orig[n - 1 - j],
                out@ == kept(orig.subrange(0, n - rev.len())),
            decreases rev.len(),
        {
            let ghost k = n - rev.len();
            match rev.pop() {
                Some(c) => {
                    assert(orig.subrange(0, k + 1).drop_last() == orig.subrange(0, k));
                    if self.retains(&c) {
                        out.push(c);
                    }
                },
                None => {},
            }
        }
        assert(orig.subrange(0, n as int) == orig);
        out
    }
}

/// Filtering twice keeps what filtering once keeps.
pub proof fn lemma_apply_idempotent<T>(s: Seq<Component<T>>)
    ensures
        kept(kept(s)) == kept(s),
    decreases s.len(),
{
    if s.len() > 0 {
        lemma_apply_idempotent(s.drop_last());
        if is_retained(s.last()) {
            let k = kept(s.drop_last()).push(s.last());
            assert(k.drop_last() == kept(s.drop_last()));
        }
    }
}

/// An event without a description, and any component that is no event, is
/// never removed.
pub proof fn lemma_undescribed_survive<T>(s: Seq<Component<T>>, i: int)
    requires
        0 <= i < s.len(),
        s[i] is Other || s[i] matches Component::Event { description: None, .. },
    ensures
        kept(s).contains(s[i]),
    decreases s.len(),
{
    if i == s.len() - 1 {
        assert(kept(s).last() == s[i]);
    } else {
        lemma_undescribed_survive(s.drop_last(), i);
        let k = kept(s.drop_last());
        let j = choose|j: int| 0 <= j < k.len() && k[j] == s[i];
        if is_retained(s.last()) {
            assert(kept(s)[j] == s[i]);
        }
    }
}

} // verus!
