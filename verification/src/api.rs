//! The rules of the HTTP interface: what requests are refused, with what reply, and in
//! what order sessions are listed.

use vstd::prelude::*;

use crate::proto::CreateSessionRequest;
use crate::proto::PatchSessionRequest;
use crate::proto::SessionSummary;
use crate::proto::SummaryView;
use crate::text::blank;
use crate::text::is_blank;
use crate::timestamp::Timestamp;

verus! {

pub const BAD_REQUEST: u16 = 400;

pub const NOT_FOUND: u16 = 404;

pub const INTERNAL_SERVER_ERROR: u16 = 500;

/// A refusal: the HTTP status code and the text of the reply.
#[derive(Debug)]
pub struct ApiError {
    pub code: u16,
    pub message: String,
}

/// What a refusal holds.
#[verifier::ext_equal]
pub struct ApiErrorView {
    pub code: u16,
    pub message: Seq<char>,
}

impl View for ApiError {
    type V = ApiErrorView;

    open spec fn view(&self) -> ApiErrorView {
        ApiErrorView { code: self.code, message: self.message@ }
    }
}

/// A request that makes no sense.
pub open spec fn bad_request_view(message: Seq<char>) -> ApiErrorView {
    ApiErrorView { code: BAD_REQUEST, message }
}

/// A request for a session that there is not.
pub open spec fn not_found_view() -> ApiErrorView {
    ApiErrorView { code: NOT_FOUND, message: "session not found"@ }
}

/// A request that could not be carried out.
pub open spec fn internal_view(message: Seq<char>) -> ApiErrorView {
    ApiErrorView { code: INTERNAL_SERVER_ERROR, message }
}

pub fn bad_request(message: &str) -> (r: ApiError)
    ensures
        r@ == bad_request_view(message@),
{
    ApiError { code: BAD_REQUEST, message: message.to_owned() }
}

/// The reply to a request for a session that there is not.
pub fn session_not_found() -> (r: ApiError)
    ensures
        r@ == not_found_view(),
{
    ApiError { code: NOT_FOUND, message: "session not found".to_owned() }
}

/// The reply to a request that could not be carried out, for the reason in `message`.
pub fn internal_error(message: String) -> (r: ApiError)
    ensures
        r@ == internal_view(message@),
{
    ApiError { code: INTERNAL_SERVER_ERROR, message }
}

/// Why a session cannot be created, if it cannot: its name, its directory and its
/// shell are looked at in this order.
pub open spec fn creation_fault(req: CreateSessionRequest) -> Option<ApiErrorView> {
    if blank(req.name@) {
        Some(bad_request_view("name must not be empty"@))
    } else if blank(req.cwd@) {
        Some(bad_request_view("cwd must not be empty"@))
    } else if blank(req.shell@) {
        Some(bad_request_view("shell must not be empty"@))
    } else {
        None
    }
}

/// Refuses to create a session without a name, a directory or a shell.
pub fn validate_new_session(req: &CreateSessionRequest) -> (r: Result<(), ApiError>)
    ensures
        match r {
            Ok(_) => creation_fault(*req) is None,
            Err(e) => creation_fault(*req) == Some(e@),
        },
{
    if is_blank(req.name.as_str()) {
        return Err(bad_request("name must not be empty"));
    }
    if is_blank(req.cwd.as_str()) {
        return Err(bad_request("cwd must not be empty"));
    }
    if is_blank(req.shell.as_str()) {
        return Err(bad_request("shell must not be empty"));
    }
    Ok(())
}

/// Why a session cannot be given the name, if it cannot.
pub open spec fn rename_fault(req: PatchSessionRequest) -> Option<ApiErrorView> {
    if blank(req.name@) {
        Some(bad_request_view("name must not be empty"@))
    } else {
        None
    }
}

/// Refuses an empty name.
pub fn validate_rename(req: &PatchSessionRequest) -> (r: Result<(), ApiError>)
    ensures
        match r {
            Ok(_) => rename_fault(*req) is None,
            Err(e) => rename_fault(*req) == Some(e@),
        },
{
    if is_blank(req.name.as_str()) {
        return Err(bad_request("name must not be empty"));
    }
    Ok(())
}

/// What a list of summaries holds.
pub open spec fn summaries_view(list: Seq<SessionSummary>) -> Seq<SummaryView> {
    list.map_values(|s: SessionSummary| s@)
}

/// Whether `a` is listed before `b` wherever they stand: sessions that are not
/// archived come first, and among equals those created earlier.
pub open spec fn ranks_before(a: SummaryView, b: SummaryView) -> bool {
    if a.archived != b.archived {
        b.archived
    } else {
        a.created_at.before(b.created_at)
    }
}

/// Whether no session stands behind one that ranks after it.
pub open spec fn listed(list: Seq<SummaryView>) -> bool {
    forall|i: int, j: int|
        0 <= i < j < list.len() ==> !ranks_before(#[trigger] list[j], #[trigger] list[i])
}

/// The sessions of the list with this rank, in their order.
pub open spec fn of_rank(
    list: Seq<SummaryView>,
    archived: bool,
    created_at: Timestamp,
) -> Seq<SummaryView> {
    list.filter(|s: SummaryView| s.archived == archived && s.created_at == created_at)
}

/// Whether the two lists hold the same sessions, those of each rank in the same order.
pub open spec fn same_by_rank(a: Seq<SummaryView>, b: Seq<SummaryView>) -> bool {
    forall|archived: bool, created_at: Timestamp|
        #[trigger] of_rank(a, archived, created_at) == of_rank(b, archived, created_at)
}

fn rank_before(a: &SessionSummary, b: &SessionSummary) -> (r: bool)
    ensures
        r == ranks_before(a@, b@),
{
    if a.archived != b.archived {
        b.archived
    } else {
        a.created_at.is_before(&b.created_at)
    }
}

/// The sessions in the order in which they are listed. Those of one rank keep the
/// order in which they were given.
pub fn list_sessions(sessions: Vec<SessionSummary>) -> (r: Vec<SessionSummary>)
    ensures
        r@.len() == sessions@.len(),
        listed(summaries_view(r@)),
        same_by_rank(summaries_view(r@), summaries_view(sessions@)),
        summaries_view(r@).to_multiset() == summaries_view(sessions@).to_multiset(),
{
    let ghost given = summaries_view(sessions@);
    let mut out: Vec<SessionSummary> = Vec::new();
    let mut n: usize = 0;
    assert(summaries_view(out@) =~= given.take(0));
    while n < sessions.len()
        invariant
            n <= sessions.len(),
            out@.len() == n,
            given == summaries_view(sessions@),
            listed(summaries_view(out@)),
            same_by_rank(summaries_view(out@), given.take(n as int)),
            summaries_view(out@).to_multiset() == given.take(n as int).to_multiset(),
        decreases sessions.len() - n,
    {
        let item = sessions[n].clone();
        let ghost before = summaries_view(out@);
        let mut at: usize = out.len();
        while at > 0 && rank_before(&item, &out[at - 1])
            invariant
                at <= out.len(),
                before == summaries_view(out@),
                forall|j: int| at <= j < before.len() ==> ranks_before(item@, #[trigger] before[j]),
            decreases at,
        {
            assert(before[at - 1] == out@[at - 1]@);
            at = at - 1;
        }
        let ghost old_out = out@;
        out.insert(at, item);
        proof {
            assert(summaries_view(out@) =~= before.insert(at as int, item@));
            assert(given.take(n + 1) =~= given.take(n as int).push(item@));
            if at > 0 {
                assert(before[at - 1] == old_out[at - 1]@);
            }
            lemma_insert_listed(before, at as int, item@);
            lemma_insert_ranks(before, given.take(n as int), at as int, item@);
            lemma_insert_multiset(before, at as int, item@);
            broadcast use vstd::seq_lib::group_to_multiset_ensures;

        }
        n = n + 1;
    }
    assert(given.take(given.len() as int) =~= given);
    out
}

proof fn lemma_insert_listed(list: Seq<SummaryView>, at: int, item: SummaryView)
    requires
        listed(list),
        0 <= at <= list.len(),
        at > 0 ==> !ranks_before(item, list[at - 1]),
        forall|j: int| at <= j < list.len() ==> ranks_before(item, #[trigger] list[j]),
    ensures
        listed(list.insert(at, item)),
{
    let all = list.insert(at, item);
    assert forall|i: int, j: int| 0 <= i < j < all.len() implies !ranks_before(
        #[trigger] all[j],
        #[trigger] all[i],
    ) by {
        let a = if i < at {
            i
        } else {
            i - 1
        };
        let b = if j < at {
            j
        } else {
            j - 1
        };
        if i == at {
            assert(all[j] == list[b]);
            assert(ranks_before(item, list[b]));
        } else if j == at {
            assert(all[i] == list[a]);
            if a < at - 1 {
                assert(!ranks_before(list[at - 1], list[a]));
            }
        } else {
            assert(all[i] == list[a] && all[j] == list[b]);
        }
    }
}

proof fn lemma_filter_none(list: Seq<SummaryView>, pred: spec_fn(SummaryView) -> bool)
    requires
        forall|j: int| 0 <= j < list.len() ==> !pred(#[trigger] list[j]),
    ensures
        list.filter(pred).len() == 0,
    decreases list.len(),
{
    reveal(Seq::filter);
    if list.len() > 0 {
        let rest = list.drop_last();
        assert(forall|j: int| 0 <= j < rest.len() ==> #[trigger] rest[j] == list[j]);
        lemma_filter_none(rest, pred);
    }
}

proof fn lemma_insert_multiset(list: Seq<SummaryView>, at: int, item: SummaryView)
    requires
        0 <= at <= list.len(),
    ensures
        list.insert(at, item).to_multiset() == list.push(item).to_multiset(),
{
    broadcast use vstd::seq_lib::group_to_multiset_ensures;

    let front = list.take(at);
    let back = list.skip(at);
    assert(list =~= front + back);
    assert(list.insert(at, item) =~= front.push(item) + back);
    vstd::seq_lib::lemma_multiset_commutative(front, back);
    vstd::seq_lib::lemma_multiset_commutative(front.push(item), back);
    assert(list.insert(at, item).to_multiset() =~= list.push(item).to_multiset());
}

proof fn lemma_insert_ranks(
    list: Seq<SummaryView>,
    given: Seq<SummaryView>,
    at: int,
    item: SummaryView,
)
    requires
        same_by_rank(list, given),
        0 <= at <= list.len(),
        forall|j: int| at <= j < list.len() ==> ranks_before(item, #[trigger] list[j]),
    ensures
        same_by_rank(list.insert(at, item), given.push(item)),
{
    assert forall|archived: bool, created_at: Timestamp| #[trigger]
        of_rank(list.insert(at, item), archived, created_at) == of_rank(
        given.push(item),
        archived,
        created_at,
    ) by {
        let pred = |s: SummaryView| s.archived == archived && s.created_at == created_at;
        let front = list.take(at);
        let back = list.skip(at);
        assert(list =~= front + back);
        assert(list.insert(at, item) =~= front.push(item) + back);
        Seq::filter_distributes_over_add(front, back, pred);
        Seq::filter_distributes_over_add(front.push(item), back, pred);
        reveal(Seq::filter);
        assert(front.push(item).drop_last() =~= front);
        assert(given.push(item).drop_last() =~= given);
        assert(of_rank(list, archived, created_at) == of_rank(given, archived, created_at));
        if pred(item) {
            assert forall|j: int| 0 <= j < back.len() implies !pred(#[trigger] back[j]) by {
                assert(back[j] == list[at + j]);
            }
            lemma_filter_none(back, pred);
            assert(back.filter(pred) =~= Seq::<SummaryView>::empty());
            assert(front.filter(pred) + Seq::<SummaryView>::empty() =~= front.filter(pred));
            assert(front.push(item).filter(pred) + Seq::<SummaryView>::empty() =~= front.filter(
                pred,
            ).push(item));
        }
    }
}

} // verus!
