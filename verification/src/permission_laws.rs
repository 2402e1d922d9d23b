//! Who may run what: which request is approved, asked for or denied, and why.
use crate::assoc::{self, lookup};
use crate::extension::PermissionLevel;
use crate::json::JsonView;
use crate::message::MessageContentView;
use crate::permission_judge::{
    called_names, detected, extension_ids, first_handed_over, handed_over, in_names, learned,
    only_texts, permission_check, read_only_schema, verdict, with_verdict, Annotations,
    PermissionsView, Verdict,
};
use crate::tool::ToolRequestView;
use vstd::prelude::*;

verus! {

/// The requests with a verdict are those of the list that have it.
pub proof fn lemma_holds_verdict(
    requests: Seq<ToolRequestView>,
    mode: Seq<char>,
    notes: Annotations,
    p: PermissionsView,
    v: Verdict,
    q: ToolRequestView,
)
    ensures
        with_verdict(requests, mode, notes, p, v).contains(q) <==> requests.contains(q) && verdict(
            q,
            mode,
            notes,
            p,
        ) == v,
    decreases requests.len(),
{
    let all = with_verdict(requests, mode, notes, p, v);
    if requests.len() > 0 {
        let before = requests.drop_last();
        let rest = with_verdict(before, mode, notes, p, v);
        lemma_holds_verdict(before, mode, notes, p, v, q);
        lemma_push_holds(before, requests.last(), q);
        assert(before.push(requests.last()) =~= requests);
        lemma_push_holds(rest, requests.last(), q);
    }
}

proof fn lemma_push_holds<A>(s: Seq<A>, x: A, q: A)
    ensures
        s.push(x).contains(q) <==> s.contains(q) || x == q,
{
    if s.contains(q) {
        let i = choose|i: int| 0 <= i < s.len() && s[i] == q;
        assert(s.push(x)[i] == q);
    }
    if x == q {
        assert(s.push(x)[s.len() as int] == q);
    }
    if s.push(x).contains(q) {
        let i = choose|i: int| 0 <= i < s.push(x).len() && s.push(x)[i] == q;
        if i < s.len() {
            assert(s[i] == q);
        }
    }
}

proof fn lemma_sum_holds<A>(a: Seq<A>, b: Seq<A>, q: A)
    ensures
        (a + b).contains(q) <==> a.contains(q) || b.contains(q),
{
    if a.contains(q) {
        let i = choose|i: int| 0 <= i < a.len() && a[i] == q;
        assert((a + b)[i] == q);
    }
    if b.contains(q) {
        let i = choose|i: int| 0 <= i < b.len() && b[i] == q;
        assert((a + b)[i + a.len()] == q);
    }
}

proof fn lemma_names_hold(
    candidates: Seq<ToolRequestView>,
    names: Seq<Seq<char>>,
    inside: bool,
    q: ToolRequestView,
)
    ensures
        in_names(candidates, names, inside).contains(q) <==> candidates.contains(q)
            && q.tool_call is Ok && names.contains(q.tool_call->Ok_0.name) == inside,
    decreases candidates.len(),
{
    if candidates.len() > 0 {
        let before = candidates.drop_last();
        lemma_names_hold(before, names, inside, q);
        lemma_push_holds(before, candidates.last(), q);
        assert(before.push(candidates.last()) =~= candidates);
        lemma_push_holds(in_names(before, names, inside), candidates.last(), q);
    }
}

/// Who is approved. In the mode that approves everything every request that could be
/// read is, in the mode that only chats none is. In any other mode a request is
/// approved if and only if the user always allows its tool, or the mode approves by
/// itself, the user said nothing of the tool, and it was found out to be always
/// allowed or, with nothing found out, is annotated as read-only or is without
/// annotations and named as read-only by the model.
pub proof fn law_approved(
    requests: Seq<ToolRequestView>,
    mode: Seq<char>,
    notes: Annotations,
    p: PermissionsView,
    names: Seq<Seq<char>>,
    q: ToolRequestView,
)
    ensures
        permission_check(requests, mode, notes, p, names).approved.contains(q) <==> ({
            &&& requests.contains(q)
            &&& q.tool_call is Ok
            &&& mode != "chat"@
            &&& mode == "auto"@ || ({
                let name = q.tool_call->Ok_0.name;
                let user = lookup(p.user, name);
                let found = lookup(p.smart_approve, name);
                ||| user == Some(PermissionLevel::AlwaysAllow)
                ||| mode == "smart_approve"@ && user is None && found == Some(
                    PermissionLevel::AlwaysAllow,
                )
                ||| mode == "smart_approve"@ && user is None && found is None
                    && notes.read_only.contains(name)
                ||| mode == "smart_approve"@ && user is None && found is None
                    && notes.without.contains(name) && names.contains(name)
            })
        }),
{
    let candidates = with_verdict(requests, mode, notes, p, Verdict::Detect);
    let a = with_verdict(requests, mode, notes, p, Verdict::Approve);
    lemma_sum_holds(a, in_names(candidates, names, true), q);
    lemma_holds_verdict(requests, mode, notes, p, Verdict::Approve, q);
    lemma_holds_verdict(requests, mode, notes, p, Verdict::Detect, q);
    lemma_names_hold(candidates, names, true, q);
}

/// For whom the user is asked: outside the modes that only chat or approve everything,
/// where the user wants to be asked, or said nothing of the tool and either the mode
/// does not approve by itself, it was found out that the user is to be asked, or
/// nothing was found out and nothing tells that the tool only reads.
pub proof fn law_needs_approval(
    requests: Seq<ToolRequestView>,
    mode: Seq<char>,
    notes: Annotations,
    p: PermissionsView,
    names: Seq<Seq<char>>,
    q: ToolRequestView,
)
    ensures
        permission_check(requests, mode, notes, p, names).needs_approval.contains(q) <==> ({
            &&& requests.contains(q)
            &&& q.tool_call is Ok
            &&& mode != "chat"@
            &&& mode != "auto"@
            &&& {
                let name = q.tool_call->Ok_0.name;
                let user = lookup(p.user, name);
                let found = lookup(p.smart_approve, name);
                ||| user == Some(PermissionLevel::AskBefore)
                ||| user is None && mode != "smart_approve"@
                ||| user is None && found == Some(PermissionLevel::AskBefore)
                ||| user is None && found is None && !notes.read_only.contains(name) && !(
                notes.without.contains(name) && names.contains(name))
            }
        }),
{
    let candidates = with_verdict(requests, mode, notes, p, Verdict::Detect);
    let a = with_verdict(requests, mode, notes, p, Verdict::Ask);
    lemma_sum_holds(a, in_names(candidates, names, false), q);
    lemma_holds_verdict(requests, mode, notes, p, Verdict::Ask, q);
    lemma_holds_verdict(requests, mode, notes, p, Verdict::Detect, q);
    lemma_names_hold(candidates, names, false, q);
}

/// Who is denied: a request whose tool the user never allows, or of whose tool the user
/// said nothing and which was found out to be never allowed, in the mode that approves
/// by itself.
pub proof fn law_denied(
    requests: Seq<ToolRequestView>,
    mode: Seq<char>,
    notes: Annotations,
    p: PermissionsView,
    names: Seq<Seq<char>>,
    q: ToolRequestView,
)
    ensures
        permission_check(requests, mode, notes, p, names).denied.contains(q) <==> ({
            &&& requests.contains(q)
            &&& q.tool_call is Ok
            &&& mode != "chat"@
            &&& mode != "auto"@
            &&& {
                let name = q.tool_call->Ok_0.name;
                let user = lookup(p.user, name);
                ||| user == Some(PermissionLevel::NeverAllow)
                ||| user is None && mode == "smart_approve"@ && lookup(p.smart_approve, name)
                    == Some(PermissionLevel::NeverAllow)
            }
        }),
{
    lemma_holds_verdict(requests, mode, notes, p, Verdict::Deny, q);
}

/// In the mode in which the user approves, whatever is annotated, found out or told by
/// a model counts for nothing: a request of whose tool the user said nothing needs an
/// approval and is not approved.
pub proof fn law_approve_mode_asks(
    requests: Seq<ToolRequestView>,
    notes: Annotations,
    p: PermissionsView,
    names: Seq<Seq<char>>,
    q: ToolRequestView,
)
    requires
        requests.contains(q),
        q.tool_call is Ok,
        lookup(p.user, q.tool_call->Ok_0.name) is None,
    ensures
        permission_check(requests, "approve"@, notes, p, names).needs_approval.contains(q),
        !permission_check(requests, "approve"@, notes, p, names).approved.contains(q),
{
    reveal_strlit("approve");
    reveal_strlit("chat");
    reveal_strlit("auto");
    reveal_strlit("smart_approve");
    assert("approve"@[1] == 'p');
    assert("chat"@[1] == 'h');
    assert("auto"@[1] == 'u');
    assert("smart_approve"@[1] == 'm');
    law_needs_approval(requests, "approve"@, notes, p, names, q);
    law_approved(requests, "approve"@, notes, p, names, q);
}

/// The lists keep the order of the requests: first those that were clear, then those
/// that a model was asked about, each part by part.
pub proof fn law_verdicts_keep_order(
    x: Seq<ToolRequestView>,
    y: Seq<ToolRequestView>,
    mode: Seq<char>,
    notes: Annotations,
    p: PermissionsView,
    v: Verdict,
    names: Seq<Seq<char>>,
    inside: bool,
)
    ensures
        with_verdict(x + y, mode, notes, p, v) == with_verdict(x, mode, notes, p, v)
            + with_verdict(y, mode, notes, p, v),
        in_names(x + y, names, inside) == in_names(x, names, inside) + in_names(y, names, inside),
        extension_ids(x + y, mode) == extension_ids(x, mode) + extension_ids(y, mode),
        called_names(x + y) == called_names(x) + called_names(y),
    decreases y.len(),
{
    if y.len() == 0 {
        assert(x + y =~= x);
    } else {
        assert((x + y).drop_last() =~= x + y.drop_last());
        law_verdicts_keep_order(x, y.drop_last(), mode, notes, p, v, names, inside);
    }
    assert(with_verdict(x + y, mode, notes, p, v) =~= with_verdict(x, mode, notes, p, v)
        + with_verdict(y, mode, notes, p, v));
    assert(in_names(x + y, names, inside) =~= in_names(x, names, inside) + in_names(
        y,
        names,
        inside,
    ));
    assert(extension_ids(x + y, mode) =~= extension_ids(x, mode) + extension_ids(y, mode));
    assert(called_names(x + y) =~= called_names(x) + called_names(y));
}

/// Of one request: it manages extensions where its call is of that tool, in the modes
/// in which permissions count, and its tool is named where it could be read.
pub proof fn law_ids_of_one(q: ToolRequestView, mode: Seq<char>)
    ensures
        q.tool_call is Ok && q.tool_call->Ok_0.name == "manage_extensions"@ && mode
            != "chat"@ && mode != "auto"@ ==> extension_ids(seq![q], mode) == seq![q.id],
        q.tool_call is Err || q.tool_call->Ok_0.name != "manage_extensions"@ || mode
            == "chat"@ || mode == "auto"@ ==> extension_ids(seq![q], mode).len() == 0,
        q.tool_call is Ok ==> called_names(seq![q]) == seq![q.tool_call->Ok_0.name],
        q.tool_call is Err ==> called_names(seq![q]).len() == 0,
{
    assert(seq![q].drop_last() =~= Seq::empty());
    assert(extension_ids(Seq::empty(), mode) =~= Seq::empty());
    assert(called_names(Seq::empty()) =~= Seq::empty());
    assert(Seq::<Seq<char>>::empty().push(q.id) =~= seq![q.id]);
    if q.tool_call is Ok {
        assert(Seq::<Seq<char>>::empty().push(q.tool_call->Ok_0.name) =~= seq![
            q.tool_call->Ok_0.name,
        ]);
    }
}

/// A tool that a model is asked about: nothing but the model can tell of it.
pub open spec fn model_is_asked(
    mode: Seq<char>,
    notes: Annotations,
    p: PermissionsView,
    name: Seq<char>,
) -> bool {
    &&& mode == "smart_approve"@
    &&& lookup(p.user, name) is None
    &&& lookup(p.smart_approve, name) is None
    &&& !notes.read_only.contains(name)
    &&& notes.without.contains(name)
}

proof fn lemma_learned(
    known: Seq<(Seq<char>, PermissionLevel)>,
    candidates: Seq<ToolRequestView>,
    names: Seq<Seq<char>>,
    name: Seq<char>,
)
    ensures
        lookup(learned(known, candidates, names), name) == if (exists|i: int|
            0 <= i < candidates.len() && (#[trigger] candidates[i]).tool_call is Ok
                && candidates[i].tool_call->Ok_0.name == name) {
            Some(
                if names.contains(name) {
                    PermissionLevel::AlwaysAllow
                } else {
                    PermissionLevel::AskBefore
                },
            )
        } else {
            lookup(known, name)
        },
    decreases candidates.len(),
{
    if candidates.len() > 0 {
        let before = candidates.drop_last();
        lemma_learned(known, before, names, name);
        let last = candidates.last();
        assert(last == candidates[candidates.len() - 1]);
        assert forall|i: int| 0 <= i < before.len() implies before[i] == #[trigger] candidates[i] by {
        }
        if last.tool_call is Ok {
            let n = last.tool_call->Ok_0.name;
            let level = if names.contains(n) {
                PermissionLevel::AlwaysAllow
            } else {
                PermissionLevel::AskBefore
            };
            assoc::lemma_lookup_put(learned(known, before, names), n, level, name);
        }
        if exists|i: int|
            0 <= i < before.len() && (#[trigger] before[i]).tool_call is Ok
                && before[i].tool_call->Ok_0.name == name {
            let i = choose|i: int|
                0 <= i < before.len() && (#[trigger] before[i]).tool_call is Ok
                    && before[i].tool_call->Ok_0.name == name;
            assert(candidates[i].tool_call is Ok);
        }
    }
}

/// What is kept for the next time: a tool that was called and that a model was asked
/// about is always allowed where the model named it and is asked for where it did not;
/// of any other tool what was found out before stands.
pub proof fn law_what_is_learned(
    requests: Seq<ToolRequestView>,
    mode: Seq<char>,
    notes: Annotations,
    p: PermissionsView,
    names: Seq<Seq<char>>,
    name: Seq<char>,
)
    ensures
        lookup(
            learned(
                p.smart_approve,
                with_verdict(requests, mode, notes, p, Verdict::Detect),
                names,
            ),
            name,
        ) == if model_is_asked(mode, notes, p, name) && (exists|i: int|
            0 <= i < requests.len() && (#[trigger] requests[i]).tool_call is Ok
                && requests[i].tool_call->Ok_0.name == name) {
            Some(
                if names.contains(name) {
                    PermissionLevel::AlwaysAllow
                } else {
                    PermissionLevel::AskBefore
                },
            )
        } else {
            lookup(p.smart_approve, name)
        },
{
    reveal_strlit("chat");
    reveal_strlit("auto");
    reveal_strlit("smart_approve");
    assert("chat"@[1] == 'h');
    assert("auto"@[1] == 'u');
    assert("smart_approve"@[1] == 'm');
    let candidates = with_verdict(requests, mode, notes, p, Verdict::Detect);
    lemma_learned(p.smart_approve, candidates, names, name);
    if exists|i: int|
        0 <= i < candidates.len() && (#[trigger] candidates[i]).tool_call is Ok
            && candidates[i].tool_call->Ok_0.name == name {
        let i = choose|i: int|
            0 <= i < candidates.len() && (#[trigger] candidates[i]).tool_call is Ok
                && candidates[i].tool_call->Ok_0.name == name;
        let q = candidates[i];
        assert(candidates.contains(q));
        lemma_holds_verdict(requests, mode, notes, p, Verdict::Detect, q);
        let j = choose|j: int| 0 <= j < requests.len() && requests[j] == q;
        assert(requests[j].tool_call is Ok);
    }
    if model_is_asked(mode, notes, p, name) && (exists|i: int|
        0 <= i < requests.len() && (#[trigger] requests[i]).tool_call is Ok
            && requests[i].tool_call->Ok_0.name == name) {
        let i = choose|i: int|
            0 <= i < requests.len() && (#[trigger] requests[i]).tool_call is Ok
                && requests[i].tool_call->Ok_0.name == name;
        let q = requests[i];
        assert(requests.contains(q));
        lemma_holds_verdict(requests, mode, notes, p, Verdict::Detect, q);
        let j = choose|j: int| 0 <= j < candidates.len() && candidates[j] == q;
        assert(candidates[j].tool_call is Ok);
    }
}

/// The texts of a list are those of its parts; of one value, the text that it is.
pub proof fn law_texts_of_parts(x: Seq<JsonView>, y: Seq<JsonView>, v: JsonView)
    ensures
        only_texts(x + y) == only_texts(x) + only_texts(y),
        v is Text ==> only_texts(seq![v]) == seq![v->Text_0],
        !(v is Text) ==> only_texts(seq![v]).len() == 0,
    decreases y.len(),
{
    if y.len() == 0 {
        assert(x + y =~= x);
    } else {
        assert((x + y).drop_last() =~= x + y.drop_last());
        law_texts_of_parts(x, y.drop_last(), v);
    }
    assert(only_texts(x + y) =~= only_texts(x) + only_texts(y));
    assert(seq![v].drop_last() =~= Seq::empty());
    assert(only_texts(Seq::empty()) =~= Seq::empty());
    if v is Text {
        assert(only_texts(seq![v]) =~= seq![v->Text_0]);
    }
}

/// A call of the read-only tool, with a list of names, hands just these over.
pub proof fn law_named_tools_are_handed_over(
    q: ToolRequestView,
    args: Seq<(Seq<char>, JsonView)>,
    items: Seq<JsonView>,
    names: Seq<Seq<char>>,
)
    requires
        q.tool_call is Ok,
        q.tool_call->Ok_0.name == "platform__tool_by_tool_permission"@,
        q.tool_call->Ok_0.arguments == Some(args),
        lookup(args, "read_only_tools"@) == Some(JsonView::Array(items)),
        items == names.map_values(|s: Seq<char>| JsonView::Text(s)),
    ensures
        handed_over(MessageContentView::ToolRequest(q)) == Some(names),
{
    lemma_texts_of_texts(names);
}

proof fn lemma_texts_of_texts(names: Seq<Seq<char>>)
    ensures
        only_texts(names.map_values(|s: Seq<char>| JsonView::Text(s))) == names,
    decreases names.len(),
{
    let items = names.map_values(|s: Seq<char>| JsonView::Text(s));
    if names.len() > 0 {
        lemma_texts_of_texts(names.drop_last());
        assert(items.drop_last() =~= names.drop_last().map_values(
            |s: Seq<char>| JsonView::Text(s),
        ));
        assert(names.drop_last().push(names.last()) =~= names);
    } else {
        assert(only_texts(items) =~= names);
    }
}

/// Nothing but such a call hands anything over.
pub proof fn law_nothing_else_is_handed_over(c: MessageContentView)
    requires
        handed_over(c) is Some,
    ensures
        c is ToolRequest,
        c->ToolRequest_0.tool_call is Ok,
        c->ToolRequest_0.tool_call->Ok_0.name == "platform__tool_by_tool_permission"@,
        c->ToolRequest_0.tool_call->Ok_0.arguments is Some,
        lookup(
            c->ToolRequest_0.tool_call->Ok_0.arguments->Some_0,
            "read_only_tools"@,
        ) matches Some(JsonView::Array(items)) && handed_over(c) == Some(only_texts(items)),
{
}

/// Of an answer the first list that is handed over counts.
pub proof fn law_first_list_counts(content: Seq<MessageContentView>, i: int)
    requires
        0 <= i < content.len(),
        handed_over(content[i]) is Some,
        forall|j: int| 0 <= j < i ==> handed_over(#[trigger] content[j]) is None,
    ensures
        first_handed_over(content) == handed_over(content[i]),
    decreases content.len(),
{
    if i > 0 {
        assert(handed_over(content[0]) is None);
        assert forall|j: int| 0 <= j < i - 1 implies handed_over(
            #[trigger] content.drop_first()[j],
        ) is None by {
            assert(content.drop_first()[j] == content[j + 1]);
        }
        assert(content.drop_first()[i - 1] == content[i]);
        law_first_list_counts(content.drop_first(), i - 1);
    }
}

/// Without such a call, or without an answer, no tool is known to only read.
pub proof fn law_no_list_names_nothing(content: Seq<MessageContentView>)
    requires
        forall|j: int| 0 <= j < content.len() ==> handed_over(#[trigger] content[j]) is None,
    ensures
        first_handed_over(content) is None,
        detected(None).len() == 0,
    decreases content.len(),
{
    if content.len() > 0 {
        assert forall|j: int| 0 <= j < content.drop_first().len() implies handed_over(
            #[trigger] content.drop_first()[j],
        ) is None by {
            assert(content.drop_first()[j] == content[j + 1]);
        }
        law_no_list_names_nothing(content.drop_first());
    }
}

/// The model is asked for the very list that is read from its call.
pub proof fn law_asked_for_what_is_read()
    ensures
        ({
            let list = JsonView::Object(read_only_schema()).field(
                "properties"@,
            )->Some_0.field("read_only_tools"@);
            &&& list is Some
            &&& list->Some_0.field("type"@) == Some(JsonView::Text("array"@))
            &&& list->Some_0.field("items"@) is Some
            &&& list->Some_0.field("items"@)->Some_0.field("type"@) == Some(
                JsonView::Text("string"@),
            )
        }),
{
    reveal_with_fuel(lookup, 4);
    reveal_strlit("properties");
    reveal_strlit("type");
    reveal_strlit("items");
    reveal_strlit("description");
    assert("properties"@.len() != "type"@.len());
    assert("items"@.len() != "type"@.len());
    let schema = read_only_schema();
    let properties = schema[1].1->Object_0;
    assoc::lemma_lookup_at(schema, "properties"@, 1);
    assoc::lemma_lookup_at(properties, "read_only_tools"@, 0);
    let list = properties[0].1->Object_0;
    assoc::lemma_lookup_at(list, "type"@, 0);
    assoc::lemma_lookup_at(list, "items"@, 1);
    assoc::lemma_lookup_at(list[1].1->Object_0, "type"@, 0);
}

} // verus!
