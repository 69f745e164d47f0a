use vstd::prelude::*;
use crate::value::Value;
use crate::registry::{
    Registry, RegistryError, call_decodes, describes, descriptor_views, kind_name, names_unique,
};
use crate::tools::{CallToolError, NotificationTools, ToolDescriptor, ToolKind};

verus! {

/// A request to call the tool `name`. Absent arguments are read as an
/// empty mapping.
#[derive(Debug)]
pub struct CallToolRequest {
    pub name: String,
    pub arguments: Option<Vec<(String, Value)>>,
}

/// The parameters a request carries.
pub open spec fn arguments_of(request: CallToolRequest) -> Seq<(String, Value)> {
    match request.arguments {
        Some(a) => a@,
        None => Seq::empty(),
    }
}

/// The answer to a request to list the tools.
#[derive(Debug)]
pub struct ListToolsResult {
    pub tools: Vec<ToolDescriptor>,
}

/// `k` is the first entry of `kinds` whose name an earlier entry has.
pub open spec fn first_duplicate(kinds: Seq<ToolKind>, k: int) -> bool {
    &&& 0 <= k < kinds.len()
    &&& names_unique(kinds.subrange(0, k))
    &&& exists|j: int| 0 <= j < k && kind_name(#[trigger] kinds[j]) == kind_name(kinds[k])
}

/// Answers the tool requests of a session from a registry fixed at startup.
pub struct NotifyServerHandler {
    registry: Registry,
}

impl NotifyServerHandler {
    /// The registered tools, in registration order.
    pub closed spec fn tools(&self) -> Seq<ToolKind> {
        self.registry@
    }

    /// A handler offering `kinds`, registered in order. Startup fails on the
    /// first tool whose name is taken already.
    pub fn with_tools(kinds: &Vec<ToolKind>) -> (r: Result<NotifyServerHandler, RegistryError>)
        ensures
            r is Ok <==> names_unique(kinds@),
            r matches Ok(h) ==> h.tools() == kinds@,
            r matches Err(RegistryError::DuplicateRegistration(n)) ==> exists|k: int|
                first_duplicate(kinds@, k) && n@ == kind_name(kinds@[k]),
    {
        let mut registry = Registry::new();
        let mut i: usize = 0;
        while i < kinds.len()
            invariant
                0 <= i <= kinds@.len(),
                registry.wf(),
                registry@ == kinds@.subrange(0, i as int),
            decreases kinds@.len() - i,
        {
            match registry.register(kinds[i]) {
                Ok(()) => {},
                Err(e) => {
                    assert(registry@ == kinds@.subrange(0, i as int));
                    assert(first_duplicate(kinds@, i as int));
                    assert(!names_unique(kinds@)) by {
                        let j = choose|j: int|
                            0 <= j < i && kind_name(#[trigger] kinds@[j]) == kind_name(
                                kinds@[i as int],
                            );
                        assert(kinds@[j] == kinds@.subrange(0, i as int)[j]);
                    }
                    return Err(e);
                },
            }
            assert(registry@ =~= kinds@.subrange(0, i as int + 1));
            i = i + 1;
        }
        assert(kinds@.subrange(0, kinds@.len() as int) =~= kinds@);
        Ok(NotifyServerHandler { registry })
    }

    /// The handler of this server: the notify tool alone.
    pub fn new() -> (r: NotifyServerHandler)
        ensures
            r.tools() == seq![ToolKind::Notify],
            names_unique(r.tools()),
    {
        let mut registry = Registry::new();
        let added = registry.register(ToolKind::Notify);
        assert(added is Ok);
        assert(registry@ =~= seq![ToolKind::Notify]);
        NotifyServerHandler { registry }
    }

    /// Lists the registered tools, in registration order.
    pub fn handle_list_tools_request(&self) -> (r: ListToolsResult)
        ensures
            describes(self.tools(), descriptor_views(r.tools@)),
    {
        ListToolsResult { tools: self.registry.describe_all() }
    }

    /// Decodes a call request into the tool call to run, or into the error
    /// to answer with. No tool runs when this returns an error.
    pub fn handle_call_tool_request(
        &self,
        request: &CallToolRequest,
    ) -> (r: Result<NotificationTools, CallToolError>)
        ensures
            call_decodes(self.tools(), request.name@, arguments_of(*request), r),
    {
        match &request.arguments {
            Some(a) => self.registry.decode(&request.name, a),
            None => {
                let empty: Vec<(String, Value)> = Vec::new();
                self.registry.decode(&request.name, &empty)
            },
        }
    }
}

} // verus!
