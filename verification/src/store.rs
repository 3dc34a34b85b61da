use vstd::prelude::*;
use crate::flow_token::bytes_eq;

verus! {

/// One row of the session-token table: the token value, its owner, whether
/// it is the long-lived refresh half of a pair, its scopes, the issuing
/// device and client, and its remaining time to live in seconds.
#[derive(Debug)]
pub struct TokenRecord {
    pub token: Vec<u8>,
    pub user_id: String,
    pub is_refresh: bool,
    pub scopes: Vec<String>,
    pub device_id: Option<String>,
    pub client_id: Option<String>,
    pub ttl_seconds: u64,
}

/// Whether some row carries the given token value and refresh flag.
pub open spec fn spec_has_token(rows: Seq<TokenRecord>, t: Seq<u8>, is_refresh: bool) -> bool {
    exists|i: int|
        0 <= i < rows.len() && rows[i].token@ == t && rows[i].is_refresh == is_refresh
}

/// The first row carrying the token value and refresh flag, if any row
/// does.
pub open spec fn spec_token_find(rows: Seq<TokenRecord>, t: Seq<u8>, is_refresh: bool) -> Option<
    TokenRecord,
>
    decreases rows.len(),
{
    if rows.len() == 0 {
        None
    } else if rows[0].token@ == t && rows[0].is_refresh == is_refresh {
        Some(rows[0])
    } else {
        spec_token_find(rows.drop_first(), t, is_refresh)
    }
}

/// The predicate a row must meet to survive the deletion of a token: it
/// carries a different token value.
pub open spec fn keeps_other(t: Seq<u8>) -> spec_fn(TokenRecord) -> bool {
    |rec: TokenRecord| rec.token@ != t
}

/// The session-token table, modelled as the sequence of its rows. The
/// storage engine owns the real table; this model is what the lifecycle
/// contracts and laws speak of, and what the tests run against.
#[derive(Debug)]
pub struct TokenStore {
    pub rows: Vec<TokenRecord>,
}

impl TokenStore {
    /// An empty table.
    pub fn new() -> (r: TokenStore)
        ensures
            r.rows@.len() == 0,
    {
        TokenStore { rows: Vec::new() }
    }

    /// The first row carrying the token value and refresh flag, if any; a
    /// miss means no row carries them.
    pub fn lookup(&self, token: &[u8], is_refresh: bool) -> (r: Option<&TokenRecord>)
        ensures
            r matches Some(rec) ==> rec.token@ == token@ && rec.is_refresh == is_refresh
                && spec_has_token(self.rows@, token@, is_refresh) && spec_token_find(
                self.rows@,
                token@,
                is_refresh,
            ) == Some(*rec),
            r is None ==> !spec_has_token(self.rows@, token@, is_refresh),
            r is None ==> spec_token_find(self.rows@, token@, is_refresh) is None,
    {
        let mut i: usize = 0;
        proof {
            assert(self.rows@.skip(0) =~= self.rows@);
        }
        while i < self.rows.len()
            invariant
                0 <= i <= self.rows@.len(),
                forall|j: int|
                    0 <= j < i ==> !(self.rows@[j].token@ == token@ && self.rows@[j].is_refresh
                        == is_refresh),
                spec_token_find(self.rows@, token@, is_refresh) == spec_token_find(
                    self.rows@.skip(i as int),
                    token@,
                    is_refresh,
                ),
            decreases self.rows@.len() - i,
        {
            proof {
                assert(self.rows@.skip(i as int)[0] == self.rows@[i as int]);
            }
            let rec = &self.rows[i];
            if rec.is_refresh == is_refresh && bytes_eq(rec.token.as_slice(), token) {
                return Some(rec);
            }
            proof {
                assert(self.rows@.skip(i as int).drop_first() =~= self.rows@.skip(i + 1));
            }
            i = i + 1;
        }
        proof {
            assert(self.rows@.skip(self.rows@.len() as int).len() == 0);
        }
        None
    }

    /// Appends a row, as an insert with a fresh token value does.
    pub fn insert(&mut self, rec: TokenRecord)
        ensures
            final(self).rows@ == old(self).rows@.push(rec),
    {
        self.rows.push(rec);
    }

    /// Deletes every row carrying the token value, whichever half of a
    /// pair it is, as the storage engine's delete-by-key does.
    pub fn remove_token(&mut self, token: &[u8])
        ensures
            final(self).rows@ == old(self).rows@.filter(keeps_other(token@)),
    {
        let ghost all = self.rows@;
        let mut i: usize = 0;
        let ghost mut j: int = 0;
        proof {
            assert(all.subrange(0, 0).filter(keeps_other(token@)) =~= Seq::<TokenRecord>::empty());
            assert(self.rows@ =~= all.subrange(0, 0).filter(keeps_other(token@)) + all.subrange(
                0,
                all.len() as int,
            ));
        }
        while i < self.rows.len()
            invariant
                0 <= i <= j <= all.len(),
                self.rows@ =~= all.subrange(0, j).filter(keeps_other(token@)) + all.subrange(
                    j,
                    all.len() as int,
                ),
                i == all.subrange(0, j).filter(keeps_other(token@)).len(),
            decreases all.len() - j,
        {
            let ghost jj = j;
            proof {
                assert(self.rows@.len() == i + (all.len() - jj));
                assert(jj < all.len());
                assert(all.subrange(jj, all.len() as int)[0] == all[jj]);
                assert(self.rows@[i as int] == all[jj]);
            }
            let keep = !bytes_eq(self.rows[i].token.as_slice(), token);
            let ghost rows_before = self.rows@;
            proof {
                let prefix = all.subrange(0, jj);
                let next = all.subrange(0, jj + 1);
                assert(next =~= prefix + seq![all[jj]]);
                Seq::<TokenRecord>::filter_distributes_over_add(prefix, seq![all[jj]], keeps_other(token@));
                reveal_with_fuel(Seq::<_>::filter, 3);
                assert(seq![all[jj]].drop_last() =~= Seq::<TokenRecord>::empty());
                if keeps_other(token@)(all[jj]) {
                    assert(seq![all[jj]].filter(keeps_other(token@)) =~= seq![all[jj]]);
                } else {
                    assert(seq![all[jj]].filter(keeps_other(token@)) =~= Seq::<TokenRecord>::empty());
                }
                assert(all.subrange(jj, all.len() as int) =~= seq![all[jj]] + all.subrange(
                    jj + 1,
                    all.len() as int,
                ));
            }
            if keep {
                i = i + 1;
                proof {
                    j = jj + 1;
                    assert(all[jj].token@ != token@);
                    assert(keeps_other(token@)(all[jj]));
                    assert(all.subrange(0, j).filter(keeps_other(token@)) =~= all.subrange(0, jj).filter(keeps_other(token@))
                        + seq![all[jj]]);
                    assert(self.rows@ =~= all.subrange(0, j).filter(keeps_other(token@)) + all.subrange(
                        j,
                        all.len() as int,
                    ));
                }
            } else {
                self.rows.remove(i);
                proof {
                    j = jj + 1;
                    assert(all[jj].token@ == token@);
                    assert(!keeps_other(token@)(all[jj]));
                    assert(all.subrange(0, j).filter(keeps_other(token@)) =~= all.subrange(0, jj).filter(keeps_other(token@)));
                    assert(self.rows@ =~= rows_before.subrange(0, i as int)
                        + rows_before.subrange(i + 1, rows_before.len() as int));
                    assert(rows_before.subrange(0, i as int) =~= all.subrange(0, jj).filter(keeps_other(token@)));
                    assert(rows_before.subrange(i + 1, rows_before.len() as int) =~= all.subrange(
                        jj + 1,
                        all.len() as int,
                    ));
                    assert(self.rows@ =~= all.subrange(0, j).filter(keeps_other(token@)) + all.subrange(
                        j,
                        all.len() as int,
                    ));
                }
            }
        }
        proof {
            assert(j == all.len());
            assert(all.subrange(0, all.len() as int) =~= all);
            assert(self.rows@ =~= all.filter(keeps_other(token@)));
        }
    }
}

} // verus!
