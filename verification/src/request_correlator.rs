//! Matches the answers of the directory picker to the requests sent to it.
//!
//! Each request carries a token of its own. An answer counts once, for the
//! first outstanding request with its token; any other answer is dropped.

use uuid::Uuid;
use vstd::prelude::*;
use crate::search::{first_index, lemma_first_index, lemma_first_index_found, lemma_first_index_none};

verus! {

/// Whether `c` is a digit of a number in base 16, in lower case.
pub open spec fn is_hex_digit(c: char) -> bool {
    ('0' <= c && c <= '9') || ('a' <= c && c <= 'f')
}

/// Whether `token` has the shape of a request token: 32 digits in base 16,
/// in groups of 8, 4, 4, 4 and 12 with a hyphen between them.
pub open spec fn is_request_token(token: Seq<char>) -> bool {
    &&& token.len() == 36
    &&& forall|i: int|
        0 <= i < 36 ==> if i == 8 || i == 13 || i == 18 || i == 23 {
            #[trigger] token[i] == '-'
        } else {
            is_hex_digit(token[i])
        }
}

/// `Uuid::new_v4` of uuid, rendered by the identifier's `Display`. The
/// identifier is random: believed of it, not proved, is only the shape that
/// every rendering has.
#[verifier::external_body]
fn random_token() -> (token: String)
    ensures
        is_request_token(token@),
{
    Uuid::new_v4().to_string()
}

/// Whether a token reads `wanted`.
pub open spec fn is_token(wanted: Seq<char>) -> spec_fn(Seq<char>) -> bool {
    |token: Seq<char>| token == wanted
}

/// The store after an answer with `token` came in: the first outstanding
/// request with that token is settled; where there is none, nothing changes.
pub open spec fn after_answer(pending: Seq<Seq<char>>, token: Seq<char>) -> Seq<Seq<char>> {
    match first_index(pending, is_token(token)) {
        Some(i) => pending.remove(i),
        None => pending,
    }
}

/// Whether an answer with `token` is expected.
pub open spec fn is_expected(pending: Seq<Seq<char>>, token: Seq<char>) -> bool {
    first_index(pending, is_token(token)) is Some
}

/// The tokens of the requests that wait for an answer, oldest first.
#[derive(Debug)]
pub struct RequestCorrelator {
    pending: Vec<String>,
}

impl View for RequestCorrelator {
    type V = Seq<Seq<char>>;

    closed spec fn view(&self) -> Seq<Seq<char>> {
        Seq::new(self.pending@.len(), |i: int| self.pending@[i]@)
    }
}

impl RequestCorrelator {
    /// A store without outstanding requests.
    pub fn new() -> (correlator: RequestCorrelator)
        ensures
            correlator@ == Seq::<Seq<char>>::empty(),
    {
        let correlator = RequestCorrelator { pending: Vec::new() };
        assert(correlator@ =~= Seq::<Seq<char>>::empty());
        correlator
    }

    /// Makes a new token, stores it as outstanding and hands it out for the
    /// request.
    pub fn issue(&mut self) -> (token: String)
        ensures
            is_request_token(token@),
            final(self)@ == old(self)@.push(token@),
    {
        let token = random_token();
        self.register(token.clone());
        token
    }

    /// Stores `token` as outstanding, behind those stored before.
    pub fn register(&mut self, token: String)
        ensures
            final(self)@ == old(self)@.push(token@),
    {
        self.pending.push(token);
        assert(self@ =~= old(self)@.push(token@));
    }

    /// An answer with `token` came in. Where a request with that token is
    /// outstanding, it is settled and the answer's payload handed on;
    /// otherwise the answer is dropped.
    pub fn resolve(&mut self, token: &String, payload: String) -> (accepted: Option<String>)
        ensures
            final(self)@ == after_answer(old(self)@, token@),
            accepted == if is_expected(old(self)@, token@) {
                Some(payload)
            } else {
                None
            },
    {
        let ghost wanted = is_token(token@);
        let mut i: usize = 0;
        while i < self.pending.len()
            invariant
                i <= self.pending.len(),
                wanted == is_token(token@),
                *self == *old(self),
                forall|j: int| 0 <= j < i ==> !wanted(#[trigger] self@[j]),
            decreases self.pending.len() - i,
        {
            assert(self@[i as int] == self.pending@[i as int]@);
            if self.pending[i] == *token {
                proof {
                    lemma_first_index_found(self@, wanted, i as int);
                }
                self.pending.remove(i);
                assert(self@ =~= old(self)@.remove(i as int));
                return Some(payload);
            }
            i = i + 1;
        }
        proof {
            lemma_first_index_none(self@, wanted);
        }
        None
    }

    /// How many requests are outstanding.
    pub fn outstanding(&self) -> (count: usize)
        ensures
            count == self@.len(),
    {
        self.pending.len()
    }
}

/// How often `token` stands in `pending`.
pub open spec fn occurrences(pending: Seq<Seq<char>>, token: Seq<char>) -> nat
    decreases pending.len(),
{
    if pending.len() == 0 {
        0
    } else {
        occurrences(pending.drop_last(), token) + if pending.last() == token {
            1nat
        } else {
            0nat
        }
    }
}

/// An answer is expected exactly where its token stands in the store.
pub proof fn lemma_expected_iff_occurs(pending: Seq<Seq<char>>, token: Seq<char>)
    ensures
        is_expected(pending, token) <==> occurrences(pending, token) > 0,
    decreases pending.len(),
{
    if pending.len() > 0 {
        lemma_expected_iff_occurs(pending.drop_last(), token);
    }
}

/// Taking one token out of the store takes one occurrence of it away, and
/// none of any other.
pub proof fn lemma_occurrences_remove(pending: Seq<Seq<char>>, i: int, token: Seq<char>)
    requires
        0 <= i < pending.len(),
    ensures
        occurrences(pending.remove(i), token) + (if pending[i] == token {
            1nat
        } else {
            0nat
        }) == occurrences(pending, token),
    decreases pending.len(),
{
    if i == pending.len() - 1 {
        assert(pending.remove(i) =~= pending.drop_last());
    } else {
        lemma_occurrences_remove(pending.drop_last(), i, token);
        assert(pending.remove(i).drop_last() =~= pending.drop_last().remove(i));
        assert(pending.remove(i).last() == pending.last());
    }
}

/// An answer settles one request: one occurrence of its token leaves the
/// store, where there is one.
pub proof fn lemma_answer_settles_one(pending: Seq<Seq<char>>, token: Seq<char>)
    ensures
        occurrences(after_answer(pending, token), token) == if occurrences(pending, token) > 0 {
            occurrences(pending, token) - 1
        } else {
            0
        },
{
    lemma_expected_iff_occurs(pending, token);
    lemma_first_index(pending, is_token(token));
    if let Some(i) = first_index(pending, is_token(token)) {
        lemma_occurrences_remove(pending, i, token);
    }
}

/// Of two answers with the same token, the first is taken and the second is
/// dropped, where the token was issued once. (A token issued twice is good
/// for two answers.)
pub proof fn lemma_answer_counts_once(pending: Seq<Seq<char>>, token: Seq<char>)
    requires
        occurrences(pending, token) <= 1,
    ensures
        !is_expected(after_answer(pending, token), token),
        after_answer(after_answer(pending, token), token) == after_answer(pending, token),
{
    lemma_answer_settles_one(pending, token);
    lemma_expected_iff_occurs(after_answer(pending, token), token);
}

} // verus!
