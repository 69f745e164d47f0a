use vstd::prelude::*;
use crate::value::Value;
use crate::tools::{
    CallToolError, NotificationTools, ToolDescriptor, ToolDescriptorView, ToolKind, decodes,
    kind_descriptor,
};

verus! {

/// The name a tool kind is registered under.
pub open spec fn kind_name(k: ToolKind) -> Seq<char> {
    kind_descriptor(k).name
}

/// No two registered tools share a name.
pub open spec fn names_unique(kinds: Seq<ToolKind>) -> bool {
    forall|i: int, j: int|
        0 <= i < j < kinds.len() ==> kind_name(#[trigger] kinds[i]) != kind_name(#[trigger] kinds[j])
}

/// Some registered tool has the name `name`.
pub open spec fn registered(kinds: Seq<ToolKind>, name: Seq<char>) -> bool {
    exists|i: int| 0 <= i < kinds.len() && kind_name(#[trigger] kinds[i]) == name
}

/// `ds` describes the registered tools: one descriptor per tool, in
/// registration order.
pub open spec fn describes(kinds: Seq<ToolKind>, ds: Seq<ToolDescriptorView>) -> bool {
    &&& ds.len() == kinds.len()
    &&& forall|i: int| 0 <= i < kinds.len() ==> #[trigger] ds[i] == kind_descriptor(kinds[i])
}

/// The views of a list of descriptors.
pub open spec fn descriptor_views(ds: Seq<ToolDescriptor>) -> Seq<ToolDescriptorView> {
    ds.map_values(|d: ToolDescriptor| d@)
}

/// Why a tool could not be registered.
#[derive(Debug)]
pub enum RegistryError {
    /// A tool of that name is registered already.
    DuplicateRegistration(String),
}

/// `r` and `after` are what registering `kind` on `before` gives: the kind
/// appended when its name is new, the registry unchanged and a duplicate
/// error naming it otherwise.
pub open spec fn registers(
    before: Seq<ToolKind>,
    kind: ToolKind,
    r: Result<(), RegistryError>,
    after: Seq<ToolKind>,
) -> bool {
    if registered(before, kind_name(kind)) {
        &&& r matches Err(RegistryError::DuplicateRegistration(n)) && n@ == kind_name(kind)
        &&& after == before
    } else {
        &&& r is Ok
        &&& after == before.push(kind)
    }
}

/// `r` is what decoding `params` by the tool of kind `k` gives, as the
/// answer to a call: the decoded call, or invalid parameters naming the
/// first failing field.
pub open spec fn tool_decodes(
    k: ToolKind,
    params: Seq<(String, Value)>,
    r: Result<NotificationTools, CallToolError>,
) -> bool {
    match r {
        Ok(v) => decodes(k, params, Ok(v)),
        Err(CallToolError::InvalidParams(p)) => decodes(k, params, Err(p)),
        Err(_) => false,
    }
}

/// `r` is what a call of tool `name` with parameters `params` decodes to:
/// an unknown-tool error naming it when no tool has that name, otherwise
/// the decoding of the parameters by the tool of that name.
pub open spec fn call_decodes(
    kinds: Seq<ToolKind>,
    name: Seq<char>,
    params: Seq<(String, Value)>,
    r: Result<NotificationTools, CallToolError>,
) -> bool {
    if !registered(kinds, name) {
        r matches Err(CallToolError::UnknownTool(n)) && n@ == name
    } else {
        exists|i: int|
            0 <= i < kinds.len() && kind_name(#[trigger] kinds[i]) == name && tool_decodes(
                kinds[i],
                params,
                r,
            )
    }
}

/// The tools a server offers, fixed at startup, each under a distinct name.
pub struct Registry {
    kinds: Vec<ToolKind>,
}

impl View for Registry {
    type V = Seq<ToolKind>;

    closed spec fn view(&self) -> Seq<ToolKind> {
        self.kinds@
    }
}

impl Registry {
    /// Tool names are unique.
    pub open spec fn wf(&self) -> bool {
        names_unique(self@)
    }

    /// A registry with no tools.
    pub fn new() -> (r: Registry)
        ensures
            r@ == Seq::<ToolKind>::empty(),
            r.wf(),
    {
        Registry { kinds: Vec::new() }
    }

    /// Finds the position of the tool named `name`.
    fn position(&self, name: &String) -> (r: Option<usize>)
        ensures
            r matches Some(i) ==> i < self@.len() && kind_name(self@[i as int]) == name@,
            r is None ==> !registered(self@, name@),
    {
        let mut i: usize = 0;
        while i < self.kinds.len()
            invariant
                0 <= i <= self@.len(),
                self@ == self.kinds@,
                forall|j: int| 0 <= j < i ==> kind_name(#[trigger] self@[j]) != name@,
            decreases self.kinds@.len() - i,
        {
            if self.kinds[i].name() == *name {
                return Some(i);
            }
            i = i + 1;
        }
        None
    }

    /// Adds a tool. Registering a name twice is refused, and the registry
    /// is left as it was.
    pub fn register(&mut self, kind: ToolKind) -> (r: Result<(), RegistryError>)
        requires
            old(self).wf(),
        ensures
            final(self).wf(),
            registers(old(self)@, kind, r, final(self)@),
    {
        let name = kind.name();
        match self.position(&name) {
            Some(_) => Err(RegistryError::DuplicateRegistration(name)),
            None => {
                self.kinds.push(kind);
                Ok(())
            },
        }
    }

    /// The descriptors of all registered tools, in registration order.
    pub fn describe_all(&self) -> (r: Vec<ToolDescriptor>)
        ensures
            describes(self@, descriptor_views(r@)),
    {
        let mut r: Vec<ToolDescriptor> = Vec::new();
        let mut i: usize = 0;
        while i < self.kinds.len()
            invariant
                0 <= i <= self@.len(),
                self@ == self.kinds@,
                r@.len() == i,
                forall|j: int| 0 <= j < i ==> #[trigger] r@[j]@ == kind_descriptor(self@[j]),
            decreases self.kinds@.len() - i,
        {
            r.push(self.kinds[i].descriptor());
            i = i + 1;
        }
        r
    }

    /// Decodes a call of tool `name` with parameters `params`.
    pub fn decode(
        &self,
        name: &String,
        params: &Vec<(String, Value)>,
    ) -> (r: Result<NotificationTools, CallToolError>)
        ensures
            call_decodes(self@, name@, params@, r),
    {
        match self.position(name) {
            None => Err(CallToolError::UnknownTool(name.clone())),
            Some(i) => match self.kinds[i].decode(params) {
                Ok(v) => Ok(v),
                Err(p) => Err(CallToolError::InvalidParams(p)),
            },
        }
    }
}

} // verus!
