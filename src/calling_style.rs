use vstd::prelude::*;

verus! {

/// How many times a function may call another: once, at most once, any
/// number of times, or at least once.
#[derive(Debug, Clone, Copy, PartialEq, Eq, Structural)]
pub enum CallingStyle {
    Once,
    ZeroOrOnce,
    ZeroOrMore,
    OneOrMore,
}

impl CallingStyle {
    /// The call may not happen at all.
    pub open spec fn may_skip(self) -> bool {
        self is ZeroOrOnce || self is ZeroOrMore
    }

    /// The call may happen more than once.
    pub open spec fn may_repeat(self) -> bool {
        self is ZeroOrMore || self is OneOrMore
    }

    /// Every call count that `self` allows, `other` allows too.
    pub open spec fn narrower_than(self, other: CallingStyle) -> bool {
        (self.may_skip() ==> other.may_skip()) && (self.may_repeat() ==> other.may_repeat())
    }

    /// The order of certainty: a style that allows fewer call counts is
    /// greater; two styles of which neither allows all the counts of the
    /// other are not ordered.
    pub open spec fn certainty_cmp(self, other: CallingStyle) -> Option<std::cmp::Ordering> {
        if self == other {
            Some(std::cmp::Ordering::Equal)
        } else if self.narrower_than(other) {
            Some(std::cmp::Ordering::Greater)
        } else if other.narrower_than(self) {
            Some(std::cmp::Ordering::Less)
        } else {
            None
        }
    }
}

impl PartialOrd for CallingStyle {
    fn partial_cmp(&self, other: &Self) -> (r: Option<std::cmp::Ordering>) {
        match (self, other) {
            (CallingStyle::Once, CallingStyle::Once)
            | (CallingStyle::ZeroOrOnce, CallingStyle::ZeroOrOnce)
            | (CallingStyle::OneOrMore, CallingStyle::OneOrMore)
            | (CallingStyle::ZeroOrMore, CallingStyle::ZeroOrMore) => Some(std::cmp::Ordering::Equal),
            (CallingStyle::ZeroOrOnce, CallingStyle::OneOrMore)
            | (CallingStyle::OneOrMore, CallingStyle::ZeroOrOnce) => None,
            (CallingStyle::Once, _) => Some(std::cmp::Ordering::Greater),
            (CallingStyle::ZeroOrOnce, CallingStyle::Once) => Some(std::cmp::Ordering::Less),
            (CallingStyle::ZeroOrOnce, CallingStyle::ZeroOrMore) => Some(
                std::cmp::Ordering::Greater,
            ),
            (CallingStyle::ZeroOrMore, _) => Some(std::cmp::Ordering::Less),
            (CallingStyle::OneOrMore, CallingStyle::Once) => Some(std::cmp::Ordering::Less),
            (CallingStyle::OneOrMore, CallingStyle::ZeroOrMore) => Some(
                std::cmp::Ordering::Greater,
            ),
        }
    }
}

impl vstd::std_specs::cmp::PartialOrdSpecImpl for CallingStyle {
    open spec fn obeys_partial_cmp_spec() -> bool {
        true
    }

    open spec fn partial_cmp_spec(&self, other: &CallingStyle) -> Option<std::cmp::Ordering> {
        self.certainty_cmp(*other)
    }
}

/// The kind of scope that a traversal is in within the target function.
#[derive(Debug, Clone, Copy, PartialEq, Eq, Structural)]
pub enum CallingStyleVisitorState {
    Block,
    Loop,
    If,
    Closure,
}

/// The state of a traversal that determines how the function named by
/// `reference` is called: whether the target was met, and the scope that the
/// traversal is in.
pub struct CallingStyleVisitor<R> {
    pub reference: R,
    pub call_type: Option<CallingStyle>,
    state: Option<CallingStyleVisitorState>,
}

impl<R> CallingStyleVisitor<R> {
    pub closed spec fn target(&self) -> R {
        self.reference
    }

    pub closed spec fn found(&self) -> Option<CallingStyle> {
        self.call_type
    }

    pub closed spec fn scope(&self) -> Option<CallingStyleVisitorState> {
        self.state
    }

    /// A visitor that has seen nothing yet.
    pub fn new(reference: R) -> (r: Self)
        ensures
            r.target() == reference,
            r.found() is None,
            r.scope() is None,
    {
        CallingStyleVisitor { reference, call_type: None, state: None }
    }

    /// What the traversal found.
    pub fn result(self) -> (r: Option<CallingStyle>)
        ensures
            r == self.found(),
    {
        self.call_type
    }

    /// The traversal reached the target function: it is called once, and its
    /// body is a plain block.
    pub fn enter_target(&mut self)
        ensures
            final(self).target() == old(self).target(),
            final(self).found() == Some(CallingStyle::Once),
            final(self).scope() == Some(CallingStyleVisitorState::Block),
    {
        self.call_type = Some(CallingStyle::Once);
        self.state = Some(CallingStyleVisitorState::Block);
    }

    /// The traversal left the target function.
    pub fn leave_target(&mut self)
        ensures
            final(self).target() == old(self).target(),
            final(self).found() == old(self).found(),
            final(self).scope() is None,
    {
        self.state = None;
    }

    /// The traversal enters a nested scope (a loop, a branch, a closure);
    /// returns the scope it was in, to be restored on leaving.
    pub fn enter_scope(&mut self, scope: CallingStyleVisitorState) -> (r: Option<
        CallingStyleVisitorState,
    >)
        ensures
            r == old(self).scope(),
            final(self).target() == old(self).target(),
            final(self).found() == old(self).found(),
            final(self).scope() == Some(scope),
    {
        let previous = self.state;
        self.state = Some(scope);
        previous
    }

    /// The traversal leaves a nested scope and is back in `previous`.
    pub fn leave_scope(&mut self, previous: Option<CallingStyleVisitorState>)
        ensures
            final(self).target() == old(self).target(),
            final(self).found() == old(self).found(),
            final(self).scope() == previous,
    {
        self.state = previous;
    }

    pub fn scope_now(&self) -> (r: Option<CallingStyleVisitorState>)
        ensures
            r == self.scope(),
    {
        self.state
    }
}

} // verus!
