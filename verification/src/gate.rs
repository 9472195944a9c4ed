//! Access control gate: an ordered list of access-control strategies
//! evaluated against each request with short-circuit, deny-overrides,
//! fail-closed semantics. The same gate backs the transport middleware and
//! the realtime session guard, so authorization is consistent across both
//! paths. The access gate performs only read calls across the per-kind permission
//! caches; it holds no other state, and each decision is a pure function of
//! the current cache contents.

use vstd::prelude::*;

use crate::cache::cached_level;
use crate::cache::step_complete;
use crate::cache::step_event;
use crate::cache::step_fetch_failed;
use crate::cache::step_get_entry;
use crate::cache::step_get_outcome;
use crate::cache::CacheOutcome;
use crate::cache::PermissionCache;
use crate::types::ChangeEvent;
use crate::types::CoreError;
use crate::types::Identity;
use crate::types::PermissionLevel;
use crate::types::ResourceKind;
use crate::types::ResourceRef;

verus! {

/// The final decision on a request.
#[derive(Clone, Copy, Debug, PartialEq, Eq, Structural)]
pub enum Decision {
    Allow,
    Deny,
}

/// One strategy's opinion: an explicit grant, an explicit denial, or no
/// opinion. No opinion is never a grant.
#[derive(Clone, Copy, Debug, PartialEq, Eq, Structural)]
pub enum StrategyAnswer {
    Allow,
    Deny,
    NotApplicable,
}

/// The class of request being authorized: a transport-layer request or a
/// realtime collaboration action.
#[derive(Clone, Copy, Debug, PartialEq, Eq, Structural)]
pub enum RequestClass {
    Http,
    Realtime,
}

/// What the access gate learns about the inbound request.
#[derive(Clone, Copy, Debug, PartialEq, Eq, Structural)]
pub struct RequestContext {
    pub class: RequestClass,
}

/// One access-control strategy: it understands one resource kind, and
/// optionally only one class of request. Its opinion comes from the
/// permission cache of that resource kind.
#[derive(Clone, Copy, Debug, PartialEq, Eq, Structural)]
pub struct AccessControlStrategy {
    pub kind: ResourceKind,
    pub scope: Option<RequestClass>,
}

/// The result of one `authorize` call: a decision, or the instruction to
/// perform the single read-through for the requested key (and then ask
/// again) because an applicable strategy has no cached level to judge by.
#[derive(Clone, Copy, Debug, PartialEq, Eq, Structural)]
pub enum AuthorizeOutcome {
    Decided(Decision),
    NeedsFetch,
}

/// Whether strategy `s` has an opinion on requests of class `class` against
/// resource `what`.
pub open spec fn spec_applicable(
    s: AccessControlStrategy,
    what: ResourceRef,
    class: RequestClass,
) -> bool {
    s.kind == what.kind && match s.scope {
        Option::None => true,
        Option::Some(c) => c == class,
    }
}

/// One strategy's answer, given the cached level for the requested key:
/// `NotApplicable` outside the strategy's scope; a grant or denial by
/// comparing the held level against the required one; and no answer yet
/// (`None`) when the strategy is applicable but the level is not cached.
pub open spec fn spec_strategy_answer(
    s: AccessControlStrategy,
    cached: Option<PermissionLevel>,
    what: ResourceRef,
    required: PermissionLevel,
    class: RequestClass,
) -> Option<StrategyAnswer> {
    if !spec_applicable(s, what, class) {
        Option::Some(StrategyAnswer::NotApplicable)
    } else {
        match cached {
            Option::Some(l) => Option::Some(
                if l.spec_satisfies(required) {
                    StrategyAnswer::Allow
                } else {
                    StrategyAnswer::Deny
                },
            ),
            Option::None => Option::None,
        }
    }
}

/// The fold over the remaining strategies, in registration order: a denial
/// short-circuits the whole check; a strategy that cannot answer without
/// the store short-circuits into `NeedsFetch`; no opinion is skipped; and
/// when the strategies are exhausted the request is allowed only if at
/// least one strategy explicitly allowed it — otherwise denied.
pub open spec fn spec_authorize_from(
    strats: Seq<AccessControlStrategy>,
    cached: Option<PermissionLevel>,
    what: ResourceRef,
    required: PermissionLevel,
    class: RequestClass,
    seen_allow: bool,
) -> AuthorizeOutcome
    decreases strats.len(),
{
    if strats.len() == 0 {
        AuthorizeOutcome::Decided(
            if seen_allow {
                Decision::Allow
            } else {
                Decision::Deny
            },
        )
    } else {
        match spec_strategy_answer(strats[0], cached, what, required, class) {
            Option::None => AuthorizeOutcome::NeedsFetch,
            Option::Some(StrategyAnswer::Deny) => AuthorizeOutcome::Decided(Decision::Deny),
            Option::Some(StrategyAnswer::Allow) => spec_authorize_from(
                strats.drop_first(),
                cached,
                what,
                required,
                class,
                true,
            ),
            Option::Some(StrategyAnswer::NotApplicable) => spec_authorize_from(
                strats.drop_first(),
                cached,
                what,
                required,
                class,
                seen_allow,
            ),
        }
    }
}

/// The access control gate: the ordered strategies and the two per-kind
/// permission caches they judge by.
pub struct AccessControlGate {
    strategies: Vec<AccessControlStrategy>,
    collab_cache: PermissionCache,
    workspace_cache: PermissionCache,
}

impl AccessControlGate {
    /// The registered strategies, in registration order.
    pub closed spec fn strategies_view(&self) -> Seq<AccessControlStrategy> {
        self.strategies@
    }

    /// The permission cache that serves resources of `kind`.
    pub closed spec fn cache_of(&self, kind: ResourceKind) -> PermissionCache {
        match kind {
            ResourceKind::Collab => self.collab_cache,
            ResourceKind::Workspace => self.workspace_cache,
        }
    }

    /// The cached level the access gate evaluates (`who`, `what`) by.
    pub open spec fn spec_cached(&self, who: Identity, what: ResourceRef) -> Option<
        PermissionLevel,
    > {
        cached_level(self.cache_of(what.kind).entry(who, what))
    }

    /// What `authorize` answers, as a function of the current cache
    /// contents.
    pub open spec fn spec_authorize(
        &self,
        who: Identity,
        what: ResourceRef,
        required: PermissionLevel,
        class: RequestClass,
    ) -> AuthorizeOutcome {
        spec_authorize_from(
            self.strategies_view(),
            self.spec_cached(who, what),
            what,
            required,
            class,
            false,
        )
    }

    pub open spec fn wf(&self) -> bool {
        self.cache_of(ResourceKind::Collab).wf() && self.cache_of(ResourceKind::Workspace).wf()
    }

    /// A gate with no strategies (it denies everything) and empty caches.
    pub fn new() -> (r: Self)
        ensures
            r.wf(),
            r.strategies_view() == Seq::<AccessControlStrategy>::empty(),
            forall|w: Identity, rr: ResourceRef| #[trigger] r.spec_cached(w, rr) is None,
    {
        AccessControlGate {
            strategies: Vec::new(),
            collab_cache: PermissionCache::new(),
            workspace_cache: PermissionCache::new(),
        }
    }

    /// Registers one more strategy, after all already registered ones.
    pub fn with_strategy(self, s: AccessControlStrategy) -> (r: Self)
        ensures
            r.strategies_view() == self.strategies_view().push(s),
            r.cache_of(ResourceKind::Collab) == self.cache_of(ResourceKind::Collab),
            r.cache_of(ResourceKind::Workspace) == self.cache_of(ResourceKind::Workspace),
            self.wf() ==> r.wf(),
    {
        let mut g = self;
        g.strategies.push(s);
        g
    }

    /// Authorizes (`who`, `what`) at `required` level for a request of the
    /// given context: the deny-overrides, fail-closed fold over the
    /// registered strategies, judged by the current cache contents.
    pub fn authorize(
        &self,
        who: Identity,
        what: ResourceRef,
        required: PermissionLevel,
        ctx: &RequestContext,
    ) -> (r: AuthorizeOutcome)
        requires
            self.wf(),
        ensures
            r == self.spec_authorize(who, what, required, ctx.class),
    {
        let cached = match what.kind {
            ResourceKind::Collab => self.collab_cache.lookup(who, what),
            ResourceKind::Workspace => self.workspace_cache.lookup(who, what),
        };
        let ghost strats = self.strategies_view();
        let n = self.strategies.len();
        let mut i: usize = 0;
        let mut seen_allow = false;
        proof {
            assert(strats.skip(0) =~= strats);
        }
        while i < n
            invariant
                n == strats.len(),
                i <= n,
                strats == self.strategies_view(),
                cached == self.spec_cached(who, what),
                spec_authorize_from(strats, cached, what, required, ctx.class, false)
                    == spec_authorize_from(
                    strats.skip(i as int),
                    cached,
                    what,
                    required,
                    ctx.class,
                    seen_allow,
                ),
            decreases n - i,
        {
            let s = self.strategies[i];
            proof {
                assert(strats.skip(i as int)[0] == strats[i as int]);
                assert(strats.skip(i as int).drop_first() =~= strats.skip(i as int + 1));
            }
            let applicable = s.kind == what.kind && match s.scope {
                Option::None => true,
                Option::Some(c) => c == ctx.class,
            };
            if applicable {
                match cached {
                    Option::None => {
                        return AuthorizeOutcome::NeedsFetch;
                    },
                    Option::Some(l) => {
                        if l.satisfies(required) {
                            seen_allow = true;
                        } else {
                            return AuthorizeOutcome::Decided(Decision::Deny);
                        }
                    },
                }
            }
            i = i + 1;
        }
        proof {
            assert(strats.skip(n as int) =~= Seq::<AccessControlStrategy>::empty());
        }
        AuthorizeOutcome::Decided(
            if seen_allow {
                Decision::Allow
            } else {
                Decision::Deny
            },
        )
    }

    /// Resolves a decision when the authoritative store cannot be queried:
    /// last-known cached levels still count, and a check that would need
    /// the store is denied — uncertainty never grants access.
    pub fn authorize_degraded(
        &self,
        who: Identity,
        what: ResourceRef,
        required: PermissionLevel,
        ctx: &RequestContext,
    ) -> (r: Decision)
        requires
            self.wf(),
        ensures
            r == match self.spec_authorize(who, what, required, ctx.class) {
                AuthorizeOutcome::Decided(d) => d,
                AuthorizeOutcome::NeedsFetch => Decision::Deny,
            },
    {
        match self.authorize(who, what, required, ctx) {
            AuthorizeOutcome::Decided(d) => d,
            AuthorizeOutcome::NeedsFetch => Decision::Deny,
        }
    }

    /// Whether any registered strategy has an opinion on this resource and
    /// request class; a request for which none does is denied fail-closed,
    /// and reported as an unknown resource kind.
    pub fn has_applicable_strategy(&self, what: ResourceRef, ctx: &RequestContext) -> (r: bool)
        ensures
            r == exists|i: int|
                0 <= i < self.strategies_view().len() && spec_applicable(
                    #[trigger] self.strategies_view()[i],
                    what,
                    ctx.class,
                ),
    {
        let n = self.strategies.len();
        let mut i: usize = 0;
        while i < n
            invariant
                n == self.strategies_view().len(),
                i <= n,
                forall|j: int|
                    0 <= j < i ==> !spec_applicable(
                        #[trigger] self.strategies_view()[j],
                        what,
                        ctx.class,
                    ),
            decreases n - i,
        {
            let s = self.strategies[i];
            let applicable = s.kind == what.kind && match s.scope {
                Option::None => true,
                Option::Some(c) => c == ctx.class,
            };
            if applicable {
                return true;
            }
            i = i + 1;
        }
        false
    }

    /// Authorizes like `authorize`, but reports a resource that no
    /// registered strategy understands as `UnknownResourceKind` — still a
    /// denial, distinct from an ordinary Deny.
    pub fn authorize_checked(
        &self,
        who: Identity,
        what: ResourceRef,
        required: PermissionLevel,
        ctx: &RequestContext,
    ) -> (r: Result<AuthorizeOutcome, CoreError>)
        requires
            self.wf(),
        ensures
            (exists|i: int|
                0 <= i < self.strategies_view().len() && spec_applicable(
                    #[trigger] self.strategies_view()[i],
                    what,
                    ctx.class,
                )) ==> r == Result::<AuthorizeOutcome, CoreError>::Ok(
                self.spec_authorize(who, what, required, ctx.class),
            ),
            !(exists|i: int|
                0 <= i < self.strategies_view().len() && spec_applicable(
                    #[trigger] self.strategies_view()[i],
                    what,
                    ctx.class,
                )) ==> r == Result::<AuthorizeOutcome, CoreError>::Err(
                CoreError::UnknownResourceKind,
            ),
    {
        if self.has_applicable_strategy(what, ctx) {
            Result::Ok(self.authorize(who, what, required, ctx))
        } else {
            Result::Err(CoreError::UnknownResourceKind)
        }
    }

    /// Serves one permission lookup through the cache of the resource's
    /// kind; a miss claims the single read-through for this caller.
    pub fn get_permission(&mut self, who: Identity, what: ResourceRef) -> (r: CacheOutcome)
        requires
            old(self).wf(),
        ensures
            final(self).wf(),
            final(self).strategies_view() == old(self).strategies_view(),
            r == step_get_outcome(old(self).cache_of(what.kind).entry(who, what)),
            final(self).cache_of(what.kind).entry(who, what) == step_get_entry(
                old(self).cache_of(what.kind).entry(who, what),
                who,
                what,
            ),
            forall|w: Identity, rr: ResourceRef|
                !(w == who && rr == what) ==> #[trigger] final(self).cache_of(rr.kind).entry(w, rr)
                    == old(self).cache_of(rr.kind).entry(w, rr),
    {
        match what.kind {
            ResourceKind::Collab => self.collab_cache.get_permission(who, what),
            ResourceKind::Workspace => self.workspace_cache.get_permission(who, what),
        }
    }

    /// Applies one change event to the cache of the event's resource kind.
    pub fn apply_event(&mut self, ev: ChangeEvent)
        requires
            old(self).wf(),
        ensures
            final(self).wf(),
            final(self).strategies_view() == old(self).strategies_view(),
            final(self).cache_of(ev.resource.kind).entry(ev.identity, ev.resource) == step_event(
                old(self).cache_of(ev.resource.kind).entry(ev.identity, ev.resource),
                ev,
            ),
            forall|w: Identity, rr: ResourceRef|
                !(w == ev.identity && rr == ev.resource) ==> #[trigger] final(self).cache_of(
                    rr.kind,
                ).entry(w, rr) == old(self).cache_of(rr.kind).entry(w, rr),
    {
        match ev.resource.kind {
            ResourceKind::Collab => self.collab_cache.apply_event(ev),
            ResourceKind::Workspace => self.workspace_cache.apply_event(ev),
        }
    }

    /// Records a finished read-through in the cache of the resource's kind.
    pub fn complete_fetch(
        &mut self,
        who: Identity,
        what: ResourceRef,
        level: PermissionLevel,
        version: u64,
    )
        requires
            old(self).wf(),
        ensures
            final(self).wf(),
            final(self).strategies_view() == old(self).strategies_view(),
            final(self).cache_of(what.kind).entry(who, what) == step_complete(
                old(self).cache_of(what.kind).entry(who, what),
                who,
                what,
                level,
                version,
            ),
            forall|w: Identity, rr: ResourceRef|
                !(w == who && rr == what) ==> #[trigger] final(self).cache_of(rr.kind).entry(w, rr)
                    == old(self).cache_of(rr.kind).entry(w, rr),
    {
        match what.kind {
            ResourceKind::Collab => self.collab_cache.complete_fetch(who, what, level, version),
            ResourceKind::Workspace => self.workspace_cache.complete_fetch(
                who,
                what,
                level,
                version,
            ),
        }
    }

    /// Records a failed read-through in the cache of the resource's kind.
    pub fn fetch_failed(&mut self, who: Identity, what: ResourceRef)
        requires
            old(self).wf(),
        ensures
            final(self).wf(),
            final(self).strategies_view() == old(self).strategies_view(),
            final(self).cache_of(what.kind).entry(who, what) == step_fetch_failed(
                old(self).cache_of(what.kind).entry(who, what),
            ),
            forall|w: Identity, rr: ResourceRef|
                !(w == who && rr == what) ==> #[trigger] final(self).cache_of(rr.kind).entry(w, rr)
                    == old(self).cache_of(rr.kind).entry(w, rr),
    {
        match what.kind {
            ResourceKind::Collab => self.collab_cache.fetch_failed(who, what),
            ResourceKind::Workspace => self.workspace_cache.fetch_failed(who, what),
        }
    }
}

/// Deny overrides: if any registered strategy answers Deny, the fold never
/// decides Allow — whatever every other strategy answers, and wherever in
/// the order the denying strategy stands.
pub proof fn lemma_deny_overrides(
    strats: Seq<AccessControlStrategy>,
    cached: Option<PermissionLevel>,
    what: ResourceRef,
    required: PermissionLevel,
    class: RequestClass,
    seen_allow: bool,
    i: int,
)
    requires
        0 <= i < strats.len(),
        spec_strategy_answer(strats[i], cached, what, required, class) == Option::Some(
            StrategyAnswer::Deny,
        ),
    ensures
        spec_authorize_from(strats, cached, what, required, class, seen_allow)
            != AuthorizeOutcome::Decided(Decision::Allow),
    decreases strats.len(),
{
    match spec_strategy_answer(strats[0], cached, what, required, class) {
        Option::None => {},
        Option::Some(StrategyAnswer::Deny) => {},
        Option::Some(StrategyAnswer::Allow) => {
            assert(i != 0);
            assert(strats.drop_first()[i - 1] == strats[i]);
            lemma_deny_overrides(strats.drop_first(), cached, what, required, class, true, i - 1);
        },
        Option::Some(StrategyAnswer::NotApplicable) => {
            assert(i != 0);
            assert(strats.drop_first()[i - 1] == strats[i]);
            lemma_deny_overrides(
                strats.drop_first(),
                cached,
                what,
                required,
                class,
                seen_allow,
                i - 1,
            );
        },
    }
}

/// Deny decides: when every strategy has an answer (no read-through is
/// pending) and any one of them answers Deny, the fold decides Deny.
pub proof fn lemma_deny_decides(
    strats: Seq<AccessControlStrategy>,
    cached: Option<PermissionLevel>,
    what: ResourceRef,
    required: PermissionLevel,
    class: RequestClass,
    seen_allow: bool,
    i: int,
)
    requires
        0 <= i < strats.len(),
        spec_strategy_answer(strats[i], cached, what, required, class) == Option::Some(
            StrategyAnswer::Deny,
        ),
        forall|j: int|
            0 <= j < strats.len() ==> spec_strategy_answer(
                #[trigger] strats[j],
                cached,
                what,
                required,
                class,
            ) is Some,
    ensures
        spec_authorize_from(strats, cached, what, required, class, seen_allow)
            == AuthorizeOutcome::Decided(Decision::Deny),
    decreases strats.len(),
{
    match spec_strategy_answer(strats[0], cached, what, required, class) {
        Option::None => {},
        Option::Some(StrategyAnswer::Deny) => {},
        Option::Some(StrategyAnswer::Allow) => {
            assert(i != 0);
            assert(strats.drop_first()[i - 1] == strats[i]);
            assert(forall|j: int|
                0 <= j < strats.drop_first().len() ==> #[trigger] strats.drop_first()[j]
                    == strats[j + 1]);
            lemma_deny_decides(strats.drop_first(), cached, what, required, class, true, i - 1);
        },
        Option::Some(StrategyAnswer::NotApplicable) => {
            assert(i != 0);
            assert(strats.drop_first()[i - 1] == strats[i]);
            assert(forall|j: int|
                0 <= j < strats.drop_first().len() ==> #[trigger] strats.drop_first()[j]
                    == strats[j + 1]);
            lemma_deny_decides(
                strats.drop_first(),
                cached,
                what,
                required,
                class,
                seen_allow,
                i - 1,
            );
        },
    }
}

proof fn lemma_fail_closed_from(
    strats: Seq<AccessControlStrategy>,
    cached: Option<PermissionLevel>,
    what: ResourceRef,
    required: PermissionLevel,
    class: RequestClass,
    seen_allow: bool,
)
    requires
        forall|j: int|
            0 <= j < strats.len() ==> !spec_applicable(#[trigger] strats[j], what, class),
    ensures
        spec_authorize_from(strats, cached, what, required, class, seen_allow)
            == AuthorizeOutcome::Decided(
            if seen_allow {
                Decision::Allow
            } else {
                Decision::Deny
            },
        ),
    decreases strats.len(),
{
    if strats.len() > 0 {
        assert(forall|j: int|
            0 <= j < strats.drop_first().len() ==> #[trigger] strats.drop_first()[j] == strats[j
                + 1]);
        lemma_fail_closed_from(strats.drop_first(), cached, what, required, class, seen_allow);
    }
}

/// Fail closed: when no registered strategy is applicable to the resource
/// and request class, the fold decides Deny — a missing or misconfigured
/// strategy never silently grants access.
pub proof fn lemma_fail_closed(
    strats: Seq<AccessControlStrategy>,
    cached: Option<PermissionLevel>,
    what: ResourceRef,
    required: PermissionLevel,
    class: RequestClass,
)
    requires
        forall|j: int|
            0 <= j < strats.len() ==> !spec_applicable(#[trigger] strats[j], what, class),
    ensures
        spec_authorize_from(strats, cached, what, required, class, false)
            == AuthorizeOutcome::Decided(Decision::Deny),
{
    lemma_fail_closed_from(strats, cached, what, required, class, false);
}

/// Only an explicit grant allows: if the fold decides Allow without a grant
/// assumed up front, some strategy explicitly answered Allow — so it was
/// applicable and the cached level satisfied the requirement.
pub proof fn lemma_allow_needs_explicit_grant(
    strats: Seq<AccessControlStrategy>,
    cached: Option<PermissionLevel>,
    what: ResourceRef,
    required: PermissionLevel,
    class: RequestClass,
)
    requires
        spec_authorize_from(strats, cached, what, required, class, false)
            == AuthorizeOutcome::Decided(Decision::Allow),
    ensures
        exists|i: int|
            0 <= i < strats.len() && spec_strategy_answer(
                #[trigger] strats[i],
                cached,
                what,
                required,
                class,
            ) == Option::Some(StrategyAnswer::Allow),
    decreases strats.len(),
{
    match spec_strategy_answer(strats[0], cached, what, required, class) {
        Option::None => {},
        Option::Some(StrategyAnswer::Deny) => {},
        Option::Some(StrategyAnswer::Allow) => {
            assert(spec_strategy_answer(strats[0], cached, what, required, class) == Option::Some(
                StrategyAnswer::Allow,
            ));
        },
        Option::Some(StrategyAnswer::NotApplicable) => {
            lemma_allow_needs_explicit_grant(strats.drop_first(), cached, what, required, class);
            let i0 = choose|i: int|
                0 <= i < strats.drop_first().len() && spec_strategy_answer(
                    #[trigger] strats.drop_first()[i],
                    cached,
                    what,
                    required,
                    class,
                ) == Option::Some(StrategyAnswer::Allow);
            assert(strats[i0 + 1] == strats.drop_first()[i0]);
        },
    }
}

} // verus!
