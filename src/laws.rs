//! Properties of the dispatch core that span several calls or hold of every
//! input, stated over the contracts of the functions they speak of.

use vstd::prelude::*;
use crate::value::Value;
use crate::schema::{field_ok, params_valid, reports_field};
use crate::tools::{
    CallResult, CallToolError, NotificationTools, ToolDescriptorView, ToolKind,
    dispatches, error_message, kind_descriptor,
};
use crate::registry::{
    RegistryError, call_decodes, describes, kind_name, names_unique, registered, registers,
};

verus! {

/// `part` occurs somewhere in `s`.
pub open spec fn contains(s: Seq<char>, part: Seq<char>) -> bool {
    exists|i: int| 0 <= i && i + part.len() <= s.len() && #[trigger] s.subrange(i, i + part.len()) == part
}

/// Listing the tools gives exactly one descriptor per registered tool, in
/// registration order, and the same list on every call.
pub proof fn lemma_listing_is_stable(
    kinds: Seq<ToolKind>,
    first: Seq<ToolDescriptorView>,
    second: Seq<ToolDescriptorView>,
)
    requires
        describes(kinds, first),
        describes(kinds, second),
    ensures
        first.len() == kinds.len(),
        forall|i: int| 0 <= i < kinds.len() ==> #[trigger] first[i].name == kind_name(kinds[i]),
        first == second,
{
    assert(first =~= second);
}

/// A call whose parameters satisfy the schema of the tool it names decodes
/// to a tool call, and once that call's side effect succeeds the answer is a
/// success made of exactly one text block.
pub proof fn lemma_valid_call_answers_with_text(
    kinds: Seq<ToolKind>,
    i: int,
    params: Seq<(String, Value)>,
    decoded: Result<NotificationTools, CallToolError>,
    answer: Result<CallResult, CallToolError>,
)
    requires
        names_unique(kinds),
        0 <= i < kinds.len(),
        params_valid(kind_descriptor(kinds[i]).parameter_schema, params),
        call_decodes(kinds, kind_name(kinds[i]), params, decoded),
        decoded matches Ok(v) ==> dispatches(v, Ok(()), answer),
    ensures
        decoded is Ok,
        answer matches Ok(c) && !c.is_error && c.content@.len() == 1
            && c.content@[0] is Text,
{
    assert(registered(kinds, kind_name(kinds[i])));
    let j = choose|j: int|
        0 <= j < kinds.len() && kind_name(#[trigger] kinds[j]) == kind_name(kinds[i])
            && crate::registry::tool_decodes(kinds[j], params, decoded);
    assert(i == j);
}

/// A call naming no registered tool is refused as unknown, naming the tool
/// asked for; no tool call comes out of it, so no side effect runs.
pub proof fn lemma_unknown_tool_refused(
    kinds: Seq<ToolKind>,
    name: Seq<char>,
    params: Seq<(String, Value)>,
    decoded: Result<NotificationTools, CallToolError>,
)
    requires
        !registered(kinds, name),
        call_decodes(kinds, name, params, decoded),
    ensures
        decoded matches Err(CallToolError::UnknownTool(n)) && n@ == name,
{
}

/// A call to a registered tool whose parameters miss a required field or
/// hold a field of the wrong type is refused as invalid parameters, naming
/// the first such field; no tool call comes out of it, so no side effect
/// runs.
pub proof fn lemma_invalid_params_refused(
    kinds: Seq<ToolKind>,
    i: int,
    params: Seq<(String, Value)>,
    decoded: Result<NotificationTools, CallToolError>,
)
    requires
        names_unique(kinds),
        0 <= i < kinds.len(),
        exists|f: int|
            0 <= f < kind_descriptor(kinds[i]).parameter_schema.len() && !field_ok(
                #[trigger] kind_descriptor(kinds[i]).parameter_schema[f],
                params,
            ),
        call_decodes(kinds, kind_name(kinds[i]), params, decoded),
    ensures
        decoded matches Err(CallToolError::InvalidParams(p)) && exists|k: int|
            reports_field(p, kind_descriptor(kinds[i]).parameter_schema, params, k),
{
    assert(registered(kinds, kind_name(kinds[i])));
    let j = choose|j: int|
        0 <= j < kinds.len() && kind_name(#[trigger] kinds[j]) == kind_name(kinds[i])
            && crate::registry::tool_decodes(kinds[j], params, decoded);
    assert(i == j);
}

/// When the side effect of a call fails, the answer is an execution failure
/// whose text contains the side effect's own text.
pub proof fn lemma_failure_keeps_cause(
    v: NotificationTools,
    cause: String,
    answer: Result<CallResult, CallToolError>,
)
    requires
        dispatches(v, Err(cause), answer),
    ensures
        answer matches Err(e) && e is ExecutionFailed && contains(error_message(e), cause@),
{
    let e = answer->Err_0;
    let prefix = "Failed to send notification: "@;
    assert(error_message(e) == prefix + cause@);
    assert((prefix + cause@).subrange(prefix.len() as int, (prefix.len() + cause@.len()) as int)
        =~= cause@);
}

/// Registering a tool a second time is refused as a duplicate naming it, and
/// leaves the registry as the first registration made it.
pub proof fn lemma_duplicate_registration_refused(
    k: ToolKind,
    first: Result<(), RegistryError>,
    once: Seq<ToolKind>,
    second: Result<(), RegistryError>,
    twice: Seq<ToolKind>,
)
    requires
        registers(Seq::empty(), k, first, once),
        registers(once, k, second, twice),
    ensures
        first is Ok,
        second matches Err(RegistryError::DuplicateRegistration(n)) && n@ == kind_name(k),
        twice == once,
{
    assert(once[0] == k);
    assert(registered(once, kind_name(k)));
}

} // verus!
