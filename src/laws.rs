use vstd::prelude::*;

use crate::app::{auth_outcome, presented_secret, AuthError};
use crate::dispatch::{dispatch_plan, push_model, ValidationError, BLOG_ORIGIN, SITE_ORIGIN};
use crate::registry::resolved;
use crate::token::TokenView;

verus! {

/// A registry after storing each of `records` under its own id, in order,
/// each only where its id is free.
pub open spec fn insert_all(m: Map<Seq<char>, TokenView>, records: Seq<TokenView>) -> Map<
    Seq<char>,
    TokenView,
>
    decreases records.len(),
{
    if records.len() == 0 {
        m
    } else {
        let before = insert_all(m, records.drop_last());
        let t = records.last();
        if before.contains_key(t.id) {
            before
        } else {
            before.insert(t.id, t)
        }
    }
}

/// Registering a token under a free id makes it the record found under that
/// id.
pub proof fn law_create_then_get(
    m: Map<Seq<char>, TokenView>,
    id: Seq<char>,
    created_at: u64,
    token: Seq<char>,
)
    requires
        !m.contains_key(id),
    ensures
        ({
            let after = m.insert(id, TokenView { created_at, id, token });
            &&& after.contains_key(id)
            &&& after[id].token == token
            &&& after[id].id == id
            &&& after[id].created_at == created_at
        }),
{
}

/// Deleting twice is deleting once, and deleting an unknown id changes
/// nothing.
pub proof fn law_delete_idempotent(m: Map<Seq<char>, TokenView>, id: Seq<char>)
    ensures
        m.remove(id).remove(id) == m.remove(id),
        !m.contains_key(id) ==> m.remove(id) == m,
{
    assert(m.remove(id).remove(id) =~= m.remove(id));
    if !m.contains_key(id) {
        assert(m.remove(id) =~= m);
    }
}

/// Resolving a known id and an unknown one gives the known record alone.
pub proof fn law_resolve_drops_unknown(
    m: Map<Seq<char>, TokenView>,
    known: Seq<char>,
    unknown: Seq<char>,
)
    requires
        m.contains_key(known),
        !m.contains_key(unknown),
    ensures
        resolved(m, seq![known, unknown]) == seq![m[known]],
{
    let ids = seq![known, unknown];
    assert(ids.drop_last() =~= seq![known]);
    assert(seq![known].drop_last() =~= Seq::<Seq<char>>::empty());
    assert(resolved(m, Seq::<Seq<char>>::empty()) == Seq::<TokenView>::empty());
    assert(resolved(m, seq![known]) == resolved(m, Seq::<Seq<char>>::empty()).push(m[known]));
    assert(resolved(m, seq![known]) =~= seq![m[known]]);
}

/// An empty message is refused, whatever the url.
pub proof fn law_empty_message_refused(
    m: Map<Seq<char>, TokenView>,
    ids: Seq<Seq<char>>,
    url: Seq<char>,
)
    ensures
        dispatch_plan(m, ids, Seq::empty(), url) == Err::<Seq<crate::dispatch::PushMessageView>, ValidationError>(ValidationError::InvalidMessage),
{
}

/// A url outside both allowed origins is refused, even with a message.
pub proof fn law_foreign_url_refused(
    m: Map<Seq<char>, TokenView>,
    ids: Seq<Seq<char>>,
    message: Seq<char>,
)
    requires
        message.len() > 0,
    ensures
        dispatch_plan(m, ids, message, "https://evil.example/"@) == Err::<Seq<crate::dispatch::PushMessageView>, ValidationError>(ValidationError::InvalidUrl),
{
    reveal_strlit("https://evil.example/");
    reveal_strlit("https://bouzuya.net");
    reveal_strlit("https://blog.bouzuya.net");
    let u = "https://evil.example/"@;
    assert(u.subrange(0, SITE_ORIGIN@.len() as int)[8] != SITE_ORIGIN@[8]);
    assert(BLOG_ORIGIN@.len() > u.len());
}

/// A notification under the root site to a known and an unknown id plans
/// exactly one delivery, to the known token.
pub proof fn law_dispatch_to_known_only(
    m: Map<Seq<char>, TokenView>,
    known: Seq<char>,
    unknown: Seq<char>,
    message: Seq<char>,
)
    requires
        m.contains_key(known),
        !m.contains_key(unknown),
        message.len() > 0,
    ensures
        dispatch_plan(m, seq![known, unknown], message, "https://bouzuya.net/x"@) == Ok::<
            Seq<crate::dispatch::PushMessageView>,
            ValidationError,
        >(seq![push_model(m[known].token, message, "https://bouzuya.net/x"@)]),
{
    reveal_strlit("https://bouzuya.net/x");
    reveal_strlit("https://bouzuya.net");
    let u = "https://bouzuya.net/x"@;
    assert(u.subrange(0, SITE_ORIGIN@.len() as int) =~= SITE_ORIGIN@);
    law_resolve_drops_unknown(m, known, unknown);
    let plan = crate::dispatch::fan_out(seq![m[known]], message, u);
    assert(plan =~= seq![push_model(m[known].token, message, u)]);
}

/// The admin gate: no credential is unauthorized; a header is admitted
/// exactly when, after one leading `Bearer ` is taken off, it is the secret,
/// and forbidden otherwise.
pub proof fn law_admin_gate(secret: Seq<char>, header: Seq<char>)
    ensures
        auth_outcome(secret, None) == Err::<(), AuthError>(AuthError::Unauthorized),
        presented_secret(header) != secret ==> auth_outcome(secret, Some(header)) == Err::<
            (),
            AuthError,
        >(AuthError::Forbidden),
        presented_secret(header) == secret ==> auth_outcome(secret, Some(header)) == Ok::<
            (),
            AuthError,
        >(()),
{
}

/// Registering one record leaves the registry with at most one record more,
/// and with one more exactly where its id was free.
pub proof fn law_create_adds_at_most_one(
    m: Map<Seq<char>, TokenView>,
    id: Seq<char>,
    record: TokenView,
)
    requires
        m.dom().finite(),
    ensures
        m.insert(id, record).dom().len() <= m.dom().len() + 1,
        !m.contains_key(id) ==> m.insert(id, record).dom().len() == m.dom().len() + 1,
{
    assert(m.insert(id, record).dom() =~= m.dom().insert(id));
}

/// Registering records whose ids are pairwise distinct and free leaves every
/// one of them in the registry, each under its own id.
pub proof fn law_distinct_creates_all_present(
    m: Map<Seq<char>, TokenView>,
    records: Seq<TokenView>,
)
    requires
        forall|i: int, j: int| 0 <= i < j < records.len() ==> records[i].id != records[j].id,
        forall|i: int| 0 <= i < records.len() ==> !m.contains_key(#[trigger] records[i].id),
    ensures
        forall|i: int|
            0 <= i < records.len() ==> insert_all(m, records).contains_key(#[trigger] records[i].id)
                && insert_all(m, records)[records[i].id] == records[i],
        forall|k: Seq<char>| #[trigger] m.contains_key(k) ==> insert_all(m, records).contains_key(k) && insert_all(m, records)[k] == m[k],
    decreases records.len(),
{
    if records.len() > 0 {
        let rest = records.drop_last();
        law_distinct_creates_all_present(m, rest);
        let before = insert_all(m, rest);
        let t = records.last();
        assert(!before.contains_key(t.id)) by {
            if before.contains_key(t.id) {
                if m.contains_key(t.id) {
                    assert(!m.contains_key(records[records.len() - 1].id));
                } else {
                    lemma_insert_all_keys(m, rest, t.id);
                    let i = choose|i: int| 0 <= i < rest.len() && rest[i].id == t.id;
                    assert(records[i].id != records[records.len() - 1].id);
                }
            }
        }
        assert forall|i: int| 0 <= i < records.len() implies insert_all(m, records).contains_key(
            #[trigger] records[i].id,
        ) && insert_all(m, records)[records[i].id] == records[i] by {
            if i < records.len() - 1 {
                assert(rest[i] == records[i]);
            }
        }
    }
}

proof fn lemma_insert_all_keys(m: Map<Seq<char>, TokenView>, records: Seq<TokenView>, k: Seq<char>)
    requires
        insert_all(m, records).contains_key(k),
        !m.contains_key(k),
    ensures
        exists|i: int| 0 <= i < records.len() && records[i].id == k,
    decreases records.len(),
{
    if records.len() > 0 {
        let rest = records.drop_last();
        if insert_all(m, rest).contains_key(k) {
            lemma_insert_all_keys(m, rest, k);
            let i = choose|i: int| 0 <= i < rest.len() && rest[i].id == k;
            assert(records[i] == rest[i]);
        } else {
            assert(records[records.len() - 1].id == k);
        }
    }
}

} // verus!
