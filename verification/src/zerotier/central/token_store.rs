//! The Central API tokens the service knows and which one is active.
use crate::config::schema::{CentralToken, RateLimit};
use crate::text::strip_char_end;
use crate::zerotier::central::client::ZtCentralClient;
use vstd::prelude::*;

verus! {

/// The tokens, in the order they were added, and the id of the active one
/// (empty when none is).
#[derive(Debug)]
pub struct TokenStore {
    pub tokens: Vec<CentralToken>,
    pub active_token_id: String,
    pub base_url: String,
}

/// Some token in `ts` has the id `id`.
pub open spec fn has_id(ts: Seq<CentralToken>, id: Seq<char>) -> bool {
    exists|i: int| 0 <= i < ts.len() && (#[trigger] ts[i]).id@ == id
}

/// `i` is the position of the first token in `ts` with the id `id`.
pub open spec fn first_at(ts: Seq<CentralToken>, id: Seq<char>, i: int) -> bool {
    &&& 0 <= i < ts.len()
    &&& ts[i].id@ == id
    &&& forall|j: int| 0 <= j < i ==> (#[trigger] ts[j]).id@ != id
}

/// `ts` without the tokens whose id is `id`, the others in order.
pub open spec fn without(ts: Seq<CentralToken>, id: Seq<char>) -> Seq<CentralToken>
    decreases ts.len(),
{
    if ts.len() == 0 {
        ts
    } else {
        let rest = without(ts.drop_last(), id);
        if ts.last().id@ == id {
            rest
        } else {
            rest.push(ts.last())
        }
    }
}

/// The token record after an update of its name, secret and rate limit.
pub open spec fn updated(t: CentralToken, name: String, token: String, rate_limit: RateLimit) -> CentralToken {
    CentralToken { name, token, rate_limit, ..t }
}

/// The position of the first token with id `id`.
fn position(ts: &Vec<CentralToken>, id: &str) -> (r: Option<usize>)
    ensures
        match r {
            Some(i) => first_at(ts@, id@, i as int),
            None => !has_id(ts@, id@),
        },
{
    let key = id.to_owned();
    let mut i: usize = 0;
    while i < ts.len()
        invariant
            i <= ts.len(),
            key@ == id@,
            forall|j: int| 0 <= j < i ==> (#[trigger] ts@[j]).id@ != id@,
        decreases ts.len() - i,
    {
        if ts[i].id == key {
            return Some(i);
        }
        i += 1;
    }
    None
}

impl TokenStore {
    /// The active id is empty or names a stored token.
    pub open spec fn well_formed(&self) -> bool {
        self.active_token_id@.len() == 0 || has_id(self.tokens@, self.active_token_id@)
    }

    pub fn new(tokens: Vec<CentralToken>, active_token_id: String) -> (r: Self)
        ensures
            r.tokens == tokens,
            r.active_token_id == active_token_id,
            r.base_url@ == "https://api.zerotier.com/api/v1"@,
    {
        TokenStore { tokens, active_token_id, base_url: "https://api.zerotier.com/api/v1".to_owned() }
    }

    pub fn with_base_url(self, url: String) -> (r: Self)
        ensures
            r.tokens == self.tokens,
            r.active_token_id == self.active_token_id,
            r.base_url == url,
    {
        let mut s = self;
        s.base_url = url;
        s
    }

    /// Stores `t` at the end; it becomes the active token when none is.
    pub fn add_token(&mut self, t: CentralToken)
        ensures
            final(self).tokens@ == old(self).tokens@.push(t),
            final(self).active_token_id@ == if old(self).active_token_id@.len() == 0 {
                t.id@
            } else {
                old(self).active_token_id@
            },
            final(self).base_url == old(self).base_url,
            old(self).well_formed() ==> final(self).well_formed(),
    {
        if self.active_token_id.as_str().is_empty() {
            self.active_token_id = t.id.clone();
        }
        let ghost before = self.tokens@;
        self.tokens.push(t);
        proof {
            if old(self).well_formed() && old(self).active_token_id@.len() != 0 {
                let i = choose|i: int| 0 <= i < before.len() && (#[trigger] before[i]).id@ == old(self).active_token_id@;
                assert(self.tokens@[i] == before[i]);
            }
            if old(self).active_token_id@.len() == 0 {
                assert(self.tokens@[before.len() as int] == t);
            }
        }
    }

    /// Creates a token record (fresh id, created now), stores it as
    /// `add_token` does and returns it.
    pub fn add(&mut self, name: String, token: String, rate_limit: RateLimit) -> (r: CentralToken)
        ensures
            r.name == name,
            r.token == token,
            r.rate_limit == rate_limit,
            final(self).tokens@ == old(self).tokens@.push(r),
            final(self).active_token_id@ == if old(self).active_token_id@.len() == 0 {
                r.id@
            } else {
                old(self).active_token_id@
            },
            final(self).base_url == old(self).base_url,
            old(self).well_formed() ==> final(self).well_formed(),
    {
        let t = CentralToken::new(name, token, rate_limit);
        self.add_token(t.duplicate());
        t
    }

    /// Deletes every token with id `id`; `true` when there was one. When the
    /// active token goes, the first remaining token becomes active, or none.
    pub fn remove(&mut self, id: &str) -> (r: bool)
        ensures
            r == has_id(old(self).tokens@, id@),
            final(self).tokens@ == without(old(self).tokens@, id@),
            final(self).active_token_id@ == if old(self).active_token_id@ == id@ {
                if final(self).tokens@.len() > 0 {
                    final(self).tokens@[0].id@
                } else {
                    Seq::<char>::empty()
                }
            } else {
                old(self).active_token_id@
            },
            final(self).base_url == old(self).base_url,
            old(self).well_formed() ==> final(self).well_formed(),
    {
        let ghost old_ts = self.tokens@;
        let key = id.to_owned();
        let mut kept: Vec<CentralToken> = Vec::new();
        let mut i: usize = 0;
        while i < self.tokens.len()
            invariant
                i <= self.tokens.len(),
                self.tokens@ == old_ts,
                key@ == id@,
                kept@ == without(old_ts.take(i as int), id@),
            decreases self.tokens.len() - i,
        {
            assert(old_ts.take(i + 1).drop_last() =~= old_ts.take(i as int));
            assert(old_ts.take(i + 1).last() == old_ts[i as int]);
            if self.tokens[i].id != key {
                kept.push(self.tokens[i].duplicate());
            }
            i += 1;
        }
        assert(old_ts.take(old_ts.len() as int) =~= old_ts);
        let before = self.tokens.len();
        proof {
            lemma_without_len(old_ts, id@);
            lemma_without_members(old_ts, id@);
        }
        self.tokens = kept;
        if self.active_token_id == key {
            if self.tokens.len() > 0 {
                self.active_token_id = self.tokens[0].id.clone();
            } else {
                self.active_token_id = String::new();
            }
        }
        proof {
            let nt = self.tokens@;
            if old(self).well_formed() && old(self).active_token_id@ != id@ && old(self).active_token_id@.len() != 0 {
                let k = choose|k: int| 0 <= k < old_ts.len() && (#[trigger] old_ts[k]).id@ == old(self).active_token_id@;
                assert(old_ts.contains(old_ts[k]));
                assert(nt.contains(old_ts[k]));
                let m = choose|m: int| 0 <= m < nt.len() && nt[m] == old_ts[k];
                assert(nt[m].id@ == old(self).active_token_id@);
            }
            if nt.len() > 0 {
                assert(nt[0].id@ == nt[0].id@);
            }
        }
        self.tokens.len() < before
    }

    /// Makes the token with id `id` the active one; `false`, and no change,
    /// when there is none.
    pub fn set_active(&mut self, id: &str) -> (r: bool)
        ensures
            r == has_id(old(self).tokens@, id@),
            final(self).tokens == old(self).tokens,
            final(self).base_url == old(self).base_url,
            final(self).active_token_id@ == if r { id@ } else { old(self).active_token_id@ },
            old(self).well_formed() ==> final(self).well_formed(),
    {
        match position(&self.tokens, id) {
            Some(_) => {
                self.active_token_id = id.to_owned();
                true
            },
            None => false,
        }
    }

    /// The active token.
    pub fn active_token(&self) -> (r: Option<CentralToken>)
        ensures
            match r {
                Some(t) => exists|i: int| first_at(self.tokens@, self.active_token_id@, i) && t == self.tokens@[i],
                None => !has_id(self.tokens@, self.active_token_id@),
            },
    {
        self.find(self.active_token_id.as_str())
    }

    /// A client for the active token at the store's base URL; none when no
    /// stored token is active.
    pub fn active_client(&self) -> (r: Option<ZtCentralClient>)
        ensures
            match r {
                Some(c) => exists|i: int| {
                    &&& first_at(self.tokens@, self.active_token_id@, i)
                    &&& c.base_url@ == strip_char_end(self.base_url@, '/')
                    &&& c.token == self.tokens@[i].token
                    &&& c.max_per_second == self.tokens@[i].rate_limit.capacity_spec()
                },
                None => !has_id(self.tokens@, self.active_token_id@),
            },
    {
        match self.active_token() {
            Some(t) => Some(ZtCentralClient::new(self.base_url.clone(), t.token, &t.rate_limit)),
            None => None,
        }
    }

    /// All tokens, in order.
    pub fn list(&self) -> (r: Vec<CentralToken>)
        ensures
            r@ == self.tokens@,
    {
        let mut r: Vec<CentralToken> = Vec::new();
        let mut i: usize = 0;
        while i < self.tokens.len()
            invariant
                i <= self.tokens.len(),
                r@ == self.tokens@.take(i as int),
            decreases self.tokens.len() - i,
        {
            r.push(self.tokens[i].duplicate());
            assert(self.tokens@.take(i + 1) =~= self.tokens@.take(i as int).push(self.tokens@[i as int]));
            i += 1;
        }
        assert(self.tokens@.take(self.tokens.len() as int) =~= self.tokens@);
        r
    }

    /// The first token with id `id`.
    pub fn find(&self, id: &str) -> (r: Option<CentralToken>)
        ensures
            match r {
                Some(t) => exists|i: int| first_at(self.tokens@, id@, i) && t == self.tokens@[i],
                None => !has_id(self.tokens@, id@),
            },
    {
        match position(&self.tokens, id) {
            Some(i) => Some(self.tokens[i].duplicate()),
            None => None,
        }
    }

    /// Replaces the name, secret and rate limit of the first token with id
    /// `id`, keeping its id and creation time; `None` when there is none.
    pub fn update(&mut self, id: &str, name: String, token: String, rate_limit: RateLimit) -> (r: Option<CentralToken>)
        ensures
            match r {
                Some(t) => exists|i: int| {
                    &&& first_at(old(self).tokens@, id@, i)
                    &&& t == updated(old(self).tokens@[i], name, token, rate_limit)
                    &&& final(self).tokens@ == old(self).tokens@.update(i, t)
                },
                None => !has_id(old(self).tokens@, id@) && final(self).tokens == old(self).tokens,
            },
            final(self).active_token_id == old(self).active_token_id,
            final(self).base_url == old(self).base_url,
            old(self).well_formed() ==> final(self).well_formed(),
    {
        match position(&self.tokens, id) {
            Some(i) => {
                let old_t = self.tokens[i].duplicate();
                let t = CentralToken {
                    id: old_t.id,
                    name,
                    token,
                    rate_limit,
                    created_at: old_t.created_at,
                };
                let ghost before = self.tokens@;
                self.tokens.set(i, t.duplicate());
                proof {
                    if old(self).well_formed() && old(self).active_token_id@.len() != 0 {
                        let k = choose|k: int| 0 <= k < before.len() && (#[trigger] before[k]).id@ == old(self).active_token_id@;
                        assert(self.tokens@[k].id@ == before[k].id@);
                    }
                }
                Some(t)
            },
            None => None,
        }
    }
}

// ── Laws ─────────────────────────────────────────────────────────────────────

pub proof fn lemma_without_len(ts: Seq<CentralToken>, id: Seq<char>)
    ensures
        without(ts, id).len() <= ts.len(),
        without(ts, id).len() < ts.len() <==> has_id(ts, id),
    decreases ts.len(),
{
    if ts.len() > 0 {
        let init = ts.drop_last();
        lemma_without_len(init, id);
        if has_id(init, id) {
            let i = choose|i: int| 0 <= i < init.len() && (#[trigger] init[i]).id@ == id;
            assert(ts[i] == init[i]);
        }
        if has_id(ts, id) && ts.last().id@ != id {
            let i = choose|i: int| 0 <= i < ts.len() && (#[trigger] ts[i]).id@ == id;
            assert(init[i] == ts[i]);
        }
        if ts.last().id@ == id {
            assert(ts[ts.len() - 1].id@ == id);
        }
    }
}

/// Removing an id keeps exactly the tokens with another id.
pub proof fn lemma_without_members(ts: Seq<CentralToken>, id: Seq<char>)
    ensures
        forall|t: CentralToken| #[trigger] without(ts, id).contains(t) <==> (ts.contains(t) && t.id@ != id),
    decreases ts.len(),
{
    if ts.len() > 0 {
        let init = ts.drop_last();
        let last = ts.last();
        lemma_without_members(init, id);
        assert(ts =~= init.push(last));
        assert forall|t: CentralToken| #[trigger] without(ts, id).contains(t) <==> (ts.contains(t) && t.id@ != id) by {
            assert(ts.contains(t) <==> (init.contains(t) || t == last)) by {
                if ts.contains(t) {
                    let k = choose|k: int| 0 <= k < ts.len() && ts[k] == t;
                    if k < ts.len() - 1 {
                        assert(init[k] == t);
                    }
                }
                if init.contains(t) {
                    let k = choose|k: int| 0 <= k < init.len() && init[k] == t;
                    assert(ts[k] == t);
                }
                if t == last {
                    assert(ts[ts.len() - 1] == t);
                }
            }
            let w0 = without(init, id);
            if last.id@ != id {
                assert(without(ts, id) == w0.push(last));
                assert(w0.push(last).contains(t) <==> (w0.contains(t) || t == last)) by {
                    if w0.push(last).contains(t) {
                        let k = choose|k: int| 0 <= k < w0.len() + 1 && w0.push(last)[k] == t;
                        if k < w0.len() {
                            assert(w0[k] == t);
                        }
                    }
                    if w0.contains(t) {
                        let k = choose|k: int| 0 <= k < w0.len() && w0[k] == t;
                        assert(w0.push(last)[k] == t);
                    }
                    if t == last {
                        assert(w0.push(last)[w0.len() as int] == t);
                    }
                }
            } else {
                assert(without(ts, id) == w0);
            }
        }
    }
}

/// A token added under an id no stored token has is the one found by that
/// id afterwards.
pub proof fn lemma_added_token_found(ts: Seq<CentralToken>, t: CentralToken)
    requires
        !has_id(ts, t.id@),
    ensures
        first_at(ts.push(t), t.id@, ts.len() as int),
{
    assert forall|j: int| 0 <= j < ts.len() implies (#[trigger] ts.push(t)[j]).id@ != t.id@ by {
        assert(ts.push(t)[j] == ts[j]);
    }
}

/// After `remove(id)`, no stored token has that id, and every token with
/// another id is still there.
pub proof fn lemma_remove_forgets_only_that_id(ts: Seq<CentralToken>, id: Seq<char>)
    ensures
        !has_id(without(ts, id), id),
        forall|t: CentralToken| ts.contains(t) && t.id@ != id ==> without(ts, id).contains(t),
{
    lemma_without_members(ts, id);
    let w = without(ts, id);
    if has_id(w, id) {
        let i = choose|i: int| 0 <= i < w.len() && (#[trigger] w[i]).id@ == id;
        assert(w.contains(w[i]));
        assert(false);
    }
}

} // verus!
