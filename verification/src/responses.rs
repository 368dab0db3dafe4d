//! The response table of an operation, and the responses that request
//! extractors document.

use vstd::prelude::*;
use openapiv3::{Operation, RefOr, Response};

verus! {

/// A key of the response table: an exact status code or a status range.
pub enum StatusKey {
    Code(u16),
    Range(u16),
}

/// What the `IndexMap` in `op.responses.responses` holds: the responses of the
/// operation, in full, keyed by status (`StatusCode::Code` or `Range`), in the
/// map's order.
pub uninterp spec fn operation_responses(op: Operation) -> Seq<(StatusKey, RefOr<Response>)>;

/// `op.responses.default`, the response for statuses that the table does not
/// list.
pub uninterp spec fn operation_default_response(op: Operation) -> Option<RefOr<Response>>;

/// The operation with the `IndexMap` in `op.responses.responses` emptied:
/// every other field of the operation, and of its responses.
pub uninterp spec fn operation_without_response_table(op: Operation) -> Operation;

/// The value `RefOr::Item(Response { description, ..Response::default() })`:
/// a response with only a description.
pub uninterp spec fn bare_response(description: Seq<char>) -> RefOr<Response>;

/// The operation after `IndexMap::insert` of `bare_response(description)`
/// under `StatusCode::Code(status)` in `op.responses.responses`.
pub uninterp spec fn operation_with_bare_response(
    op: Operation,
    status: u16,
    description: Seq<char>,
) -> Operation;

/// The table holds an entry for `key`.
pub open spec fn table_has(t: Seq<(StatusKey, RefOr<Response>)>, key: StatusKey) -> bool {
    exists|i: int| 0 <= i < t.len() && (#[trigger] t[i]).0 == key
}

/// The position of the first entry for `key`, where there is one.
pub open spec fn table_index(t: Seq<(StatusKey, RefOr<Response>)>, key: StatusKey) -> int
    recommends
        table_has(t, key),
{
    choose|i: int|
        0 <= i < t.len() && (#[trigger] t[i]).0 == key && forall|j: int|
            0 <= j < i ==> (#[trigger] t[j]).0 != key
}

/// The response documented for `key`, if any.
pub open spec fn table_lookup(t: Seq<(StatusKey, RefOr<Response>)>, key: StatusKey) -> Option<RefOr<Response>> {
    if table_has(t, key) {
        Some(t[table_index(t, key)].1)
    } else {
        None
    }
}

/// The table after writing `value` under `key`: an existing entry is replaced
/// where it stands, a new one goes at the end.
pub open spec fn table_put(
    t: Seq<(StatusKey, RefOr<Response>)>,
    key: StatusKey,
    value: RefOr<Response>,
) -> Seq<(StatusKey, RefOr<Response>)> {
    if table_has(t, key) {
        t.update(table_index(t, key), (key, value))
    } else {
        t.push((key, value))
    }
}

/// The table after documenting `status` with `description`, unless the table
/// documents `status` already.
pub open spec fn table_put_if_absent(
    t: Seq<(StatusKey, RefOr<Response>)>,
    status: u16,
    description: Seq<char>,
) -> Seq<(StatusKey, RefOr<Response>)> {
    if table_has(t, StatusKey::Code(status)) {
        t
    } else {
        t.push((StatusKey::Code(status), bare_response(description)))
    }
}

/// The operation after documenting `status` with a response that holds only
/// `description`, unless its table documents `status` already.
pub open spec fn operation_put_if_absent(op: Operation, status: u16, description: Seq<char>) -> Operation {
    if table_has(operation_responses(op), StatusKey::Code(status)) {
        op
    } else {
        operation_with_bare_response(op, status, description)
    }
}

/// `IndexMap::contains_key` on the operation's responses, for the key
/// `StatusCode::Code(status)`. Claimed: the result says whether the table has
/// an entry for that key.
#[verifier::external_body]
fn has_response(op: &Operation, status: u16) -> (found: bool)
    ensures
        found == table_has(operation_responses(*op), StatusKey::Code(status)),
{
    op.responses.responses.contains_key(&openapiv3::StatusCode::Code(status))
}

/// `IndexMap::insert` on the operation's responses, of a response that holds
/// only `description`, under `StatusCode::Code(status)`. Claimed: an existing
/// entry for that key takes the new response in its place, otherwise the
/// entry is appended; the other entries keep their values, and the default
/// response and every other field of the operation stay as they were. The
/// operation afterwards is what `operation_with_bare_response` names.
#[verifier::external_body]
fn put_bare_response(op: &mut Operation, status: u16, description: String)
    ensures
        operation_responses(*final(op)) == table_put(
            operation_responses(*old(op)),
            StatusKey::Code(status),
            bare_response(description@),
        ),
        operation_default_response(*final(op)) == operation_default_response(*old(op)),
        operation_without_response_table(*final(op)) == operation_without_response_table(
            *old(op),
        ),
        *final(op) == operation_with_bare_response(*old(op), status, description@),
{
    let response = openapiv3::Response { description, ..openapiv3::Response::default() };
    op.responses.responses.insert(
        openapiv3::StatusCode::Code(status),
        openapiv3::RefOr::Item(response),
    );
}

/// Insertion helpers on an operation that never clobber a response the
/// handler already documents.
pub trait OperationExt {
    /// Records a bodyless response for `status`, leaving any existing entry
    /// for that status code untouched.
    fn add_response_if_absent(&mut self, status: u16, description: String);

    /// Records a 200 response that carries no body, for handlers that return
    /// nothing on success.
    fn add_response_success_empty(&mut self);
}

impl OperationExt for Operation {
    fn add_response_if_absent(&mut self, status: u16, description: String)
        ensures
            operation_responses(*final(self)) == table_put_if_absent(
                operation_responses(*old(self)),
                status,
                description@,
            ),
            *final(self) == operation_put_if_absent(*old(self), status, description@),
            table_has(operation_responses(*final(self)), StatusKey::Code(status)),
            forall|key: StatusKey|
                key != StatusKey::Code(status) ==> #[trigger] table_lookup(
                    operation_responses(*final(self)),
                    key,
                ) == table_lookup(operation_responses(*old(self)), key),
            operation_default_response(*final(self)) == operation_default_response(*old(self)),
            operation_without_response_table(*final(self)) == operation_without_response_table(
                *old(self),
            ),
    {
        let ghost before = operation_responses(*self);
        if !has_response(self, status) {
            put_bare_response(self, status, description);
        }
        proof {
            put_if_absent_documents_status(before, status, description@);
            assert forall|key: StatusKey| key != StatusKey::Code(status) implies #[trigger] table_lookup(
                table_put_if_absent(before, status, description@),
                key,
            ) == table_lookup(before, key) by {
                put_if_absent_keeps_documented(before, status, description@, key);
            }
        }
    }

    fn add_response_success_empty(&mut self)
        ensures
            operation_responses(*final(self)) == table_put_if_absent(
                operation_responses(*old(self)),
                200,
                "OK"@,
            ),
            *final(self) == operation_put_if_absent(*old(self), 200, "OK"@),
            table_has(operation_responses(*final(self)), StatusKey::Code(200)),
            forall|key: StatusKey|
                key != StatusKey::Code(200) ==> #[trigger] table_lookup(
                    operation_responses(*final(self)),
                    key,
                ) == table_lookup(operation_responses(*old(self)), key),
            operation_default_response(*final(self)) == operation_default_response(*old(self)),
            operation_without_response_table(*final(self)) == operation_without_response_table(
                *old(self),
            ),
    {
        let ghost before = operation_responses(*self);
        if !has_response(self, 200) {
            let description = String::from_str("OK");
            put_bare_response(self, 200, description);
        }
        proof {
            put_if_absent_documents_status(before, 200, "OK"@);
            assert forall|key: StatusKey| key != StatusKey::Code(200) implies #[trigger] table_lookup(
                table_put_if_absent(before, 200, "OK"@),
                key,
            ) == table_lookup(before, key) by {
                put_if_absent_keeps_documented(before, 200, "OK"@, key);
            }
        }
    }
}

} // verus!

verus! {

/// The first entry for a key that the table has is where `table_index` says.
proof fn lemma_table_index(t: Seq<(StatusKey, RefOr<Response>)>, key: StatusKey)
    requires
        table_has(t, key),
    ensures
        0 <= table_index(t, key) < t.len(),
        t[table_index(t, key)].0 == key,
        forall|j: int| 0 <= j < table_index(t, key) ==> (#[trigger] t[j]).0 != key,
    decreases t.len(),
{
    let p = t.drop_last();
    if table_has(p, key) {
        lemma_table_index(p, key);
        let i = table_index(p, key);
        assert(t[i] == p[i]);
        assert forall|j: int| 0 <= j < i implies (#[trigger] t[j]).0 != key by {
            assert(t[j] == p[j]);
        }
    } else {
        let n = t.len() - 1;
        assert(t[n].0 == key) by {
            let k = choose|k: int| 0 <= k < t.len() && (#[trigger] t[k]).0 == key;
            if k < n {
                assert(p[k] == t[k]);
            }
        }
        assert forall|j: int| 0 <= j < n implies (#[trigger] t[j]).0 != key by {
            assert(p[j] == t[j]);
        }
    }
}

/// Law: documenting a status if absent never changes what the table already
/// documents, and leaves every other status as it was.
pub proof fn put_if_absent_keeps_documented(
    t: Seq<(StatusKey, RefOr<Response>)>,
    status: u16,
    description: Seq<char>,
    key: StatusKey,
)
    requires
        table_has(t, key) || key != StatusKey::Code(status),
    ensures
        table_lookup(table_put_if_absent(t, status, description), key) == table_lookup(t, key),
{
    let code = StatusKey::Code(status);
    if !table_has(t, code) {
        let u = t.push((code, bare_response(description)));
        assert(key != code);
        if table_has(t, key) {
            lemma_table_index(t, key);
            let i = table_index(t, key);
            assert(u[i] == t[i]);
            assert(table_has(u, key));
            lemma_table_index(u, key);
            let k = table_index(u, key);
            assert(k < t.len()) by {
                if k >= t.len() {
                    assert(u[k].0 == code);
                }
            }
            assert(t[k] == u[k]);
            assert(k == i) by {
                if k < i {
                    assert(t[k].0 == key);
                } else if i < k {
                    assert(u[i].0 == key);
                }
            }
        } else {
            assert(!table_has(u, key)) by {
                if table_has(u, key) {
                    let k = choose|k: int| 0 <= k < u.len() && (#[trigger] u[k]).0 == key;
                    if k < t.len() {
                        assert(t[k] == u[k]);
                    }
                }
            }
        }
    }
}

/// Law: after documenting a status if absent, the table documents it; with
/// the given description where it was absent before.
pub proof fn put_if_absent_documents_status(
    t: Seq<(StatusKey, RefOr<Response>)>,
    status: u16,
    description: Seq<char>,
)
    ensures
        table_has(table_put_if_absent(t, status, description), StatusKey::Code(status)),
        !table_has(t, StatusKey::Code(status)) ==> table_lookup(
            table_put_if_absent(t, status, description),
            StatusKey::Code(status),
        ) == Some(bare_response(description)),
{
    let code = StatusKey::Code(status);
    let u = table_put_if_absent(t, status, description);
    if !table_has(t, code) {
        let n = t.len() as int;
        assert(u[n].0 == code);
        lemma_table_index(u, code);
        let k = table_index(u, code);
        assert(k == n) by {
            if k < n {
                assert(t[k] == u[k]);
            }
        }
    }
}

/// Law: the first description given for a status wins; documenting it again
/// if absent changes nothing.
pub proof fn put_if_absent_first_wins(
    t: Seq<(StatusKey, RefOr<Response>)>,
    status: u16,
    first: Seq<char>,
    second: Seq<char>,
)
    ensures
        table_put_if_absent(table_put_if_absent(t, status, first), status, second)
            == table_put_if_absent(t, status, first),
{
    put_if_absent_documents_status(t, status, first);
}

/// Law: writing a response replaces the one documented for its key and keeps
/// every other key's response; the table grows only by a new key.
pub proof fn put_replaces_only_its_key(
    t: Seq<(StatusKey, RefOr<Response>)>,
    key: StatusKey,
    value: RefOr<Response>,
    other: StatusKey,
)
    requires
        other != key,
    ensures
        table_lookup(table_put(t, key, value), key) == Some(value),
        table_lookup(table_put(t, key, value), other) == table_lookup(t, other),
        table_put(t, key, value).len() == t.len() + (if table_has(t, key) { 0int } else { 1int }),
{
    let u = table_put(t, key, value);
    if table_has(t, key) {
        lemma_table_index(t, key);
        let i = table_index(t, key);
        assert(u[i].0 == key);
        lemma_table_index(u, key);
        let k = table_index(u, key);
        assert(k == i) by {
            if k < i {
                assert(u[k] == t[k]);
            }
        }
        if table_has(t, other) {
            lemma_table_index(t, other);
            let j = table_index(t, other);
            assert(u[j] == t[j]);
            lemma_table_index(u, other);
            let m = table_index(u, other);
            assert(m != i);
            assert(u[m] == t[m]);
            assert(m == j) by {
                if m < j {
                    assert(t[m].0 == other);
                } else if j < m {
                    assert(u[j].0 == other);
                }
            }
        } else {
            assert(!table_has(u, other)) by {
                if table_has(u, other) {
                    let m = choose|m: int| 0 <= m < u.len() && (#[trigger] u[m]).0 == other;
                    assert(u[m] == t[m]);
                }
            }
        }
    } else {
        let n = t.len() as int;
        assert(u[n].0 == key);
        lemma_table_index(u, key);
        let k = table_index(u, key);
        assert(k == n) by {
            if k < n {
                assert(t[k] == u[k]);
            }
        }
        if table_has(t, other) {
            lemma_table_index(t, other);
            let j = table_index(t, other);
            assert(u[j] == t[j]);
            lemma_table_index(u, other);
            let m = table_index(u, other);
            assert(m < n) by {
                if m >= n {
                    assert(u[m].0 == key);
                }
            }
            assert(u[m] == t[m]);
            assert(m == j) by {
                if m < j {
                    assert(t[m].0 == other);
                } else if j < m {
                    assert(u[j].0 == other);
                }
            }
        } else {
            assert(!table_has(u, other)) by {
                if table_has(u, other) {
                    let m = choose|m: int| 0 <= m < u.len() && (#[trigger] u[m]).0 == other;
                    if m < n {
                        assert(u[m] == t[m]);
                    }
                }
            }
        }
    }
}


/// The response documented for `Code(status)` after documenting `status` if
/// absent on a table that documents `Code(status)` as `t` does.
proof fn lemma_put_if_absent_lookup(
    t: Seq<(StatusKey, RefOr<Response>)>,
    u: Seq<(StatusKey, RefOr<Response>)>,
    status: u16,
    description: Seq<char>,
)
    requires
        table_lookup(u, StatusKey::Code(status)) == table_lookup(t, StatusKey::Code(status)),
    ensures
        table_lookup(table_put_if_absent(u, status, description), StatusKey::Code(status))
            == table_lookup(table_put_if_absent(t, status, description), StatusKey::Code(status)),
{
    let k = StatusKey::Code(status);
    if table_has(t, k) {
        put_if_absent_keeps_documented(t, status, description, k);
        put_if_absent_keeps_documented(u, status, description, k);
    } else {
        assert(!table_has(u, k));
        put_if_absent_documents_status(t, status, description);
        put_if_absent_documents_status(u, status, description);
    }
}

/// Law: documenting two different statuses if absent, in either order, gives
/// tables that document every status with the same response; only the order
/// of the new entries may differ.
pub proof fn put_if_absent_commutes(
    t: Seq<(StatusKey, RefOr<Response>)>,
    first: u16,
    first_description: Seq<char>,
    second: u16,
    second_description: Seq<char>,
    key: StatusKey,
)
    requires
        first != second,
    ensures
        table_lookup(
            table_put_if_absent(
                table_put_if_absent(t, first, first_description),
                second,
                second_description,
            ),
            key,
        ) == table_lookup(
            table_put_if_absent(
                table_put_if_absent(t, second, second_description),
                first,
                first_description,
            ),
            key,
        ),
{
    let a = table_put_if_absent(t, first, first_description);
    let b = table_put_if_absent(t, second, second_description);
    if key == StatusKey::Code(first) {
        put_if_absent_keeps_documented(a, second, second_description, key);
        put_if_absent_keeps_documented(t, second, second_description, key);
        lemma_put_if_absent_lookup(t, b, first, first_description);
    } else if key == StatusKey::Code(second) {
        put_if_absent_keeps_documented(b, first, first_description, key);
        put_if_absent_keeps_documented(t, first, first_description, key);
        lemma_put_if_absent_lookup(t, a, second, second_description);
    } else {
        put_if_absent_keeps_documented(a, second, second_description, key);
        put_if_absent_keeps_documented(t, first, first_description, key);
        put_if_absent_keeps_documented(b, first, first_description, key);
        put_if_absent_keeps_documented(t, second, second_description, key);
    }
}

} // verus!

verus! {

/// The responses with which a JSON body extractor rejects a request before
/// the handler runs: status codes and their descriptions, in order.
pub open spec fn json_rejections() -> Seq<(u16, Seq<char>)> {
    seq![
        (400u16, "The request body could not be parsed as JSON."@),
        (422u16, "The request body is valid JSON but does not match the expected schema."@),
    ]
}

/// Status codes a JSON body extractor can reject a request with, paired with
/// a description of the rejection.
pub fn json_extractor_responses() -> (r: Vec<(u16, String)>)
    ensures
        r@.len() == json_rejections().len(),
        forall|i: int|
            0 <= i < r@.len() ==> (#[trigger] r@[i]).0 == json_rejections()[i].0 && r@[i].1@
                == json_rejections()[i].1,
{
    let mut r: Vec<(u16, String)> = Vec::new();
    r.push((400, String::from_str("The request body could not be parsed as JSON.")));
    r.push(
        (
            422,
            String::from_str(
                "The request body is valid JSON but does not match the expected schema.",
            ),
        ),
    );
    r
}

} // verus!
