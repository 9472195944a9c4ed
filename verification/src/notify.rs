//! Credential state hub: holds at most one current credential and fans out
//! its lifecycle transitions (`Refresh`, `Invalid`) to every subscriber
//! through a bounded broadcast log. Each subscriber that stays within the
//! retention window sees every transition exactly once, in order; one that
//! falls behind observes an explicit missed-transitions condition instead of
//! a silent gap.

use vstd::prelude::*;

use crate::types::CoreError;

verus! {

/// A credential lifecycle transition: the token value was refreshed, or it
/// was invalidated. A notification, not the value itself; consumers re-read
/// the value from the hub after observing `Refresh`.
#[derive(Clone, Copy, Debug, PartialEq, Eq, Structural)]
pub enum TokenState {
    Refresh,
    Invalid,
}

/// A bearer credential together with its associated claims. Owned
/// exclusively by the hub; everything else holds at most a transient copy.
#[derive(Debug)]
pub struct Credential {
    /// The opaque bearer value; value-equality on this field decides whether
    /// replacing the credential publishes a `Refresh`.
    pub access_token: String,
    pub token_type: String,
    pub expires_at: u64,
    pub refresh_token: String,
}

impl Clone for Credential {
    fn clone(&self) -> (r: Self)
        ensures
            r == *self,
    {
        Credential {
            access_token: self.access_token.clone(),
            token_type: self.token_type.clone(),
            expires_at: self.expires_at,
            refresh_token: self.refresh_token.clone(),
        }
    }
}

/// Whether replacing the held credential `cur` by `new` changes the bearer
/// value: it does when nothing was held, or when the bearer strings differ.
pub open spec fn bearer_changed(cur: Option<Credential>, new: Credential) -> bool {
    match cur {
        Option::None => true,
        Option::Some(c) => c.access_token@ != new.access_token@,
    }
}

/// One operation on the hub's credential value.
pub enum HubOp {
    SetTo(Credential),
    Clear,
}

/// The transition one operation publishes, given the currently held
/// credential: a `Refresh` when the bearer value actually changes, an
/// `Invalid` when a held credential is cleared, and nothing otherwise.
pub open spec fn op_publishes(cur: Option<Credential>, op: HubOp) -> Option<TokenState> {
    match op {
        HubOp::SetTo(c) => if bearer_changed(cur, c) {
            Option::Some(TokenState::Refresh)
        } else {
            Option::None
        },
        HubOp::Clear => if cur is Some {
            Option::Some(TokenState::Invalid)
        } else {
            Option::None
        },
    }
}

/// The credential held after one operation.
pub open spec fn op_value(cur: Option<Credential>, op: HubOp) -> Option<Credential> {
    match op {
        HubOp::SetTo(c) => Option::Some(c),
        HubOp::Clear => Option::None,
    }
}

/// The credential held after a whole sequence of operations.
pub open spec fn value_after(cur: Option<Credential>, ops: Seq<HubOp>) -> Option<Credential>
    decreases ops.len(),
{
    if ops.len() == 0 {
        cur
    } else {
        value_after(op_value(cur, ops[0]), ops.drop_first())
    }
}

/// The exact ordered sequence of transitions a sequence of operations
/// publishes: one `Refresh` per operation that changed the bearer value, one
/// `Invalid` per operation that cleared a held credential, nothing else.
pub open spec fn published_during(cur: Option<Credential>, ops: Seq<HubOp>) -> Seq<TokenState>
    decreases ops.len(),
{
    if ops.len() == 0 {
        Seq::empty()
    } else {
        let rest = published_during(op_value(cur, ops[0]), ops.drop_first());
        match op_publishes(cur, ops[0]) {
            Option::Some(t) => seq![t] + rest,
            Option::None => rest,
        }
    }
}

/// The credential state hub. `set` and `unset` are the only writers of the
/// held value; every published transition is appended to `log`, of which a
/// receiver may lag at most `capacity` entries before it is declared lagged.
pub struct ClientToken {
    token: Option<Credential>,
    log: Vec<TokenState>,
    capacity: usize,
}

/// An independent receiver of hub transitions. It observes all transitions
/// published from the moment of subscription on, none from before.
pub struct TokenStateReceiver {
    cursor: usize,
}

impl TokenStateReceiver {
    /// The index into the hub's transition log this receiver reads next.
    pub closed spec fn position(&self) -> int {
        self.cursor as int
    }

    /// Reads the next transition from the hub, without blocking.
    ///
    /// Returns `None` when the receiver is caught up (nothing to read yet),
    /// the next transition in order while the receiver is within the
    /// retention window, and `MissedTransitions` with the number of lost
    /// transitions once it has fallen behind; recovery resumes at the oldest
    /// retained transition, and the caller must treat its local credential
    /// copy as untrusted until it re-reads the hub.
    pub fn try_recv(&mut self, hub: &ClientToken) -> (r: Option<Result<TokenState, CoreError>>)
        requires
            hub.well_formed(),
            old(self).position() <= hub.transitions().len(),
        ensures
            final(self).position() <= hub.transitions().len(),
            old(self).position() == hub.transitions().len() ==> {
                &&& r is None
                &&& final(self).position() == old(self).position()
            },
            hub.oldest_retained() <= old(self).position() < hub.transitions().len() ==> {
                &&& r == Option::Some(Result::<TokenState, CoreError>::Ok(
                    hub.transitions()[old(self).position()],
                ))
                &&& final(self).position() == old(self).position() + 1
            },
            old(self).position() < hub.oldest_retained() ==> {
                &&& r == Option::Some(Result::<TokenState, CoreError>::Err(
                    CoreError::MissedTransitions(
                        (hub.oldest_retained() - old(self).position()) as u64,
                    ),
                ))
                &&& final(self).position() == hub.oldest_retained()
            },
    {
        let len = hub.log.len();
        let oldest: usize = if len > hub.capacity {
            len - hub.capacity
        } else {
            0
        };
        if self.cursor == len {
            Option::None
        } else if self.cursor < oldest {
            let missed = (oldest - self.cursor) as u64;
            self.cursor = oldest;
            Option::Some(Result::Err(CoreError::MissedTransitions(missed)))
        } else {
            let t = hub.log[self.cursor];
            self.cursor = self.cursor + 1;
            Option::Some(Result::Ok(t))
        }
    }
}

impl ClientToken {
    /// The credential the hub currently holds, if any.
    pub closed spec fn current(&self) -> Option<Credential> {
        self.token
    }

    /// Every transition published so far, in publication order.
    pub closed spec fn transitions(&self) -> Seq<TokenState> {
        self.log@
    }

    /// How far a receiver may lag behind the newest transition before it is
    /// declared lagged.
    pub closed spec fn capacity(&self) -> int {
        self.capacity as int
    }

    pub open spec fn well_formed(&self) -> bool {
        self.capacity() >= 1
    }

    /// The index of the oldest transition still retained for receivers.
    pub open spec fn oldest_retained(&self) -> int {
        if self.transitions().len() > self.capacity() {
            self.transitions().len() - self.capacity()
        } else {
            0
        }
    }

    /// A fresh hub holding no credential, with the default retention window.
    pub fn new() -> (r: Self)
        ensures
            r.well_formed(),
            r.current() is None,
            r.transitions() == Seq::<TokenState>::empty(),
            r.capacity() == 100,
    {
        ClientToken { token: Option::None, log: Vec::new(), capacity: 100 }
    }

    /// A fresh hub with an explicit retention window.
    pub fn with_capacity(capacity: usize) -> (r: Self)
        requires
            capacity >= 1,
        ensures
            r.well_formed(),
            r.current() is None,
            r.transitions() == Seq::<TokenState>::empty(),
            r.capacity() == capacity,
    {
        ClientToken { token: Option::None, log: Vec::new(), capacity }
    }

    /// Whether the hub holds no credential.
    pub fn is_empty(&self) -> (r: bool)
        ensures
            r == (self.current() is None),
    {
        self.token.is_none()
    }

    /// Returns a copy of the current credential, or `NoCredential` when the
    /// hub is empty. An explicit accessor: the empty case is never hidden
    /// behind a dereference.
    pub fn try_get(&self) -> (r: Result<Credential, CoreError>)
        ensures
            match self.current() {
                Option::Some(c) => r == Result::<Credential, CoreError>::Ok(c),
                Option::None => r == Result::<Credential, CoreError>::Err(CoreError::NoCredential),
            },
    {
        match &self.token {
            Option::None => Result::Err(CoreError::NoCredential),
            Option::Some(c) => Result::Ok(c.clone()),
        }
    }

    /// Replaces the held credential. Stores the new value first, then — only
    /// when the bearer value actually changed — publishes one `Refresh`;
    /// replacing a credential by one with the same bearer value (claims may
    /// differ) publishes nothing. Returns whether a `Refresh` was published.
    pub fn set(&mut self, new_token: Credential) -> (published: bool)
        ensures
            published == bearer_changed(old(self).current(), new_token),
            final(self).current() == op_value(old(self).current(), HubOp::SetTo(new_token)),
            final(self).current() == Option::Some(new_token),
            final(self).capacity() == old(self).capacity(),
            final(self).transitions() == match op_publishes(
                old(self).current(),
                HubOp::SetTo(new_token),
            ) {
                Option::Some(t) => old(self).transitions().push(t),
                Option::None => old(self).transitions(),
            },
            bearer_changed(old(self).current(), new_token) ==> final(self).transitions()
                == old(self).transitions().push(TokenState::Refresh),
            !bearer_changed(old(self).current(), new_token) ==> final(self).transitions()
                == old(self).transitions(),
    {
        let is_new = match &self.token {
            Option::None => true,
            Option::Some(old_token) => old_token.access_token != new_token.access_token,
        };
        self.token = Option::Some(new_token);
        if is_new {
            self.log.push(TokenState::Refresh);
        }
        is_new
    }

    /// Clears the held credential: if one is held, drops it and publishes one
    /// `Invalid`; a no-op on an already empty hub. Returns whether an
    /// `Invalid` was published.
    pub fn unset(&mut self) -> (published: bool)
        ensures
            published == (old(self).current() is Some),
            final(self).current() == op_value(old(self).current(), HubOp::Clear),
            final(self).current() is None,
            final(self).capacity() == old(self).capacity(),
            final(self).transitions() == match op_publishes(old(self).current(), HubOp::Clear) {
                Option::Some(t) => old(self).transitions().push(t),
                Option::None => old(self).transitions(),
            },
            old(self).current() is Some ==> final(self).transitions()
                == old(self).transitions().push(TokenState::Invalid),
            old(self).current() is None ==> *final(self) == *old(self),
    {
        if self.token.is_some() {
            self.token = Option::None;
            self.log.push(TokenState::Invalid);
            true
        } else {
            false
        }
    }

    /// Returns a new independent receiver that observes exactly the
    /// transitions published after this call.
    pub fn subscribe(&self) -> (r: TokenStateReceiver)
        ensures
            r.position() == self.transitions().len(),
    {
        TokenStateReceiver { cursor: self.log.len() }
    }
}

/// Publication is compositional: over any concatenation of operation
/// sequences, the transitions published are those of the first part followed
/// by those of the second part applied to the value the first part left
/// behind. Together with `op_publishes` — one `Refresh` exactly when the
/// bearer value changes, one `Invalid` exactly when a held credential is
/// cleared — this says that for every sequence of `set`/`unset` calls the
/// published log is the exact ordered record of actual value changes.
pub proof fn lemma_published_during_concat(
    cur: Option<Credential>,
    ops1: Seq<HubOp>,
    ops2: Seq<HubOp>,
)
    ensures
        value_after(cur, ops1 + ops2) == value_after(value_after(cur, ops1), ops2),
        published_during(cur, ops1 + ops2) == published_during(cur, ops1) + published_during(
            value_after(cur, ops1),
            ops2,
        ),
    decreases ops1.len(),
{
    if ops1.len() == 0 {
        assert(ops1 + ops2 == ops2);
        assert(published_during(cur, ops1) == Seq::<TokenState>::empty());
        assert(published_during(cur, ops1) + published_during(cur, ops2) == published_during(
            cur,
            ops2,
        ));
    } else {
        let cur1 = op_value(cur, ops1[0]);
        assert((ops1 + ops2).drop_first() == ops1.drop_first() + ops2);
        lemma_published_during_concat(cur1, ops1.drop_first(), ops2);
        match op_publishes(cur, ops1[0]) {
            Option::Some(t) => {
                assert(published_during(cur, ops1 + ops2) == seq![t] + published_during(
                    cur1,
                    ops1.drop_first() + ops2,
                ));
                assert(seq![t] + (published_during(cur1, ops1.drop_first()) + published_during(
                    value_after(cur1, ops1.drop_first()),
                    ops2,
                )) == (seq![t] + published_during(cur1, ops1.drop_first())) + published_during(
                    value_after(cur1, ops1.drop_first()),
                    ops2,
                ));
            },
            Option::None => {},
        }
    }
}

/// A single `set` publishes `Refresh` exactly when the bearer value changes,
/// and a single `unset` publishes `Invalid` exactly when a credential was
/// held: the one-operation case of the publication model.
pub proof fn lemma_single_op_publication(cur: Option<Credential>, op: HubOp)
    ensures
        value_after(cur, seq![op]) == op_value(cur, op),
        published_during(cur, seq![op]) == match op_publishes(cur, op) {
            Option::Some(t) => seq![t],
            Option::None => Seq::<TokenState>::empty(),
        },
{
    let ops = seq![op];
    assert(ops[0] == op);
    assert(ops.drop_first() == Seq::<HubOp>::empty());
    let next = op_value(cur, op);
    assert(value_after(next, ops.drop_first()) == next);
    assert(published_during(next, ops.drop_first()) == Seq::<TokenState>::empty());
    match op_publishes(cur, op) {
        Option::Some(t) => {
            assert(published_during(cur, ops) == seq![t] + Seq::<TokenState>::empty());
            assert(seq![t] + Seq::<TokenState>::empty() == seq![t]);
        },
        Option::None => {},
    }
}

} // verus!
