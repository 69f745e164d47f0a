use vstd::prelude::*;
use crate::value::{Value, lookup, find_field};

verus! {

/// The JSON type a parameter field must have.
#[derive(Clone, Copy, Debug, PartialEq, Eq, Structural)]
pub enum FieldType {
    Text,
    Number,
    Boolean,
    Object,
    Array,
}

/// The name a JSON schema gives to a field type.
pub open spec fn schema_type_name(t: FieldType) -> Seq<char> {
    match t {
        FieldType::Text => "string"@,
        FieldType::Number => "number"@,
        FieldType::Boolean => "boolean"@,
        FieldType::Object => "object"@,
        FieldType::Array => "array"@,
    }
}

/// The phrase an error uses for a value of the expected type.
pub open spec fn expected_phrase(t: FieldType) -> Seq<char> {
    match t {
        FieldType::Text => "a string"@,
        FieldType::Number => "a number"@,
        FieldType::Boolean => "a boolean"@,
        FieldType::Object => "an object"@,
        FieldType::Array => "an array"@,
    }
}

/// Whether `v` is a value of type `t`.
pub open spec fn type_matches(t: FieldType, v: Value) -> bool {
    match t {
        FieldType::Text => v is Text,
        FieldType::Number => v is Number,
        FieldType::Boolean => v is Bool,
        FieldType::Object => v is Object,
        FieldType::Array => v is Array,
    }
}

impl FieldType {
    /// The JSON schema name of this type.
    pub fn schema_name(&self) -> (r: &'static str)
        ensures
            r@ == schema_type_name(*self),
    {
        match self {
            FieldType::Text => "string",
            FieldType::Number => "number",
            FieldType::Boolean => "boolean",
            FieldType::Object => "object",
            FieldType::Array => "array",
        }
    }

    fn expected(&self) -> (r: &'static str)
        ensures
            r@ == expected_phrase(*self),
    {
        match self {
            FieldType::Text => "a string",
            FieldType::Number => "a number",
            FieldType::Boolean => "a boolean",
            FieldType::Object => "an object",
            FieldType::Array => "an array",
        }
    }

    /// Whether `v` is a value of this type.
    pub fn accepts(&self, v: &Value) -> (r: bool)
        ensures
            r == type_matches(*self, *v),
    {
        match self {
            FieldType::Text => matches!(v, Value::Text(_)),
            FieldType::Number => matches!(v, Value::Number(_)),
            FieldType::Boolean => matches!(v, Value::Bool(_)),
            FieldType::Object => matches!(v, Value::Object(_)),
            FieldType::Array => matches!(v, Value::Array(_)),
        }
    }
}

/// One named parameter of a tool.
#[derive(Debug)]
pub struct FieldSchema {
    pub name: String,
    pub field_type: FieldType,
    pub required: bool,
    pub description: String,
}

pub struct FieldSchemaView {
    pub name: Seq<char>,
    pub field_type: FieldType,
    pub required: bool,
    pub description: Seq<char>,
}

impl View for FieldSchema {
    type V = FieldSchemaView;

    open spec fn view(&self) -> FieldSchemaView {
        FieldSchemaView {
            name: self.name@,
            field_type: self.field_type,
            required: self.required,
            description: self.description@,
        }
    }
}

/// The parameter shape of a tool: its fields, in declaration order.
#[derive(Debug)]
pub struct SchemaNode {
    pub fields: Vec<FieldSchema>,
}

impl View for SchemaNode {
    type V = Seq<FieldSchemaView>;

    open spec fn view(&self) -> Seq<FieldSchemaView> {
        self.fields@.map_values(|f: FieldSchema| f@)
    }
}

/// A field is satisfied when it is present with a value of its type, or when
/// it is optional and absent or null. Fields the schema does not name are
/// never looked at.
pub open spec fn field_ok(f: FieldSchemaView, params: Seq<(String, Value)>) -> bool {
    match lookup(params, f.name) {
        None => !f.required,
        Some(v) => type_matches(f.field_type, v) || (!f.required && v is Null),
    }
}

/// Every field of the schema is satisfied by the parameters.
pub open spec fn params_valid(schema: Seq<FieldSchemaView>, params: Seq<(String, Value)>) -> bool {
    forall|i: int| 0 <= i < schema.len() ==> #[trigger] field_ok(schema[i], params)
}

/// `k` is the first field of the schema that the parameters fail.
pub open spec fn first_invalid(
    schema: Seq<FieldSchemaView>,
    params: Seq<(String, Value)>,
    k: int,
) -> bool {
    &&& 0 <= k < schema.len()
    &&& !field_ok(schema[k], params)
    &&& forall|j: int| 0 <= j < k ==> #[trigger] field_ok(schema[j], params)
}

/// How a parameter failed its field.
#[derive(Clone, Copy, Debug, PartialEq, Eq, Structural)]
pub enum ParamProblem {
    Missing,
    WrongType,
}

/// The problem a failing field has: absent, or present with the wrong type.
pub open spec fn problem_of(f: FieldSchemaView, params: Seq<(String, Value)>) -> ParamProblem {
    if lookup(params, f.name) is None {
        ParamProblem::Missing
    } else {
        ParamProblem::WrongType
    }
}

/// A parameter mapping that does not satisfy a schema, naming the first field
/// that fails.
#[derive(Debug)]
pub struct ParamError {
    pub field: String,
    pub problem: ParamProblem,
    pub expected: FieldType,
}

/// The error text for a failing field.
pub open spec fn param_message(problem: ParamProblem, field: Seq<char>, expected: FieldType) -> Seq<char> {
    match problem {
        ParamProblem::Missing => "missing field `"@ + field + "`"@,
        ParamProblem::WrongType => "invalid type for field `"@ + field + "`: expected "@
            + expected_phrase(expected),
    }
}

/// `e` reports field `k` of the schema as failing.
pub open spec fn reports_field(
    e: ParamError,
    schema: Seq<FieldSchemaView>,
    params: Seq<(String, Value)>,
    k: int,
) -> bool {
    &&& first_invalid(schema, params, k)
    &&& e.field@ == schema[k].name
    &&& e.problem == problem_of(schema[k], params)
    &&& e.expected == schema[k].field_type
}

impl ParamError {
    /// The human-readable text of this error.
    pub fn message(&self) -> (r: String)
        ensures
            r@ == param_message(self.problem, self.field@, self.expected),
    {
        match self.problem {
            ParamProblem::Missing => {
                let mut s = String::from_str("missing field `");
                s.append(self.field.as_str());
                s.append("`");
                s
            },
            ParamProblem::WrongType => {
                let mut s = String::from_str("invalid type for field `");
                s.append(self.field.as_str());
                s.append("`: expected ");
                s.append(self.expected.expected());
                s
            },
        }
    }
}

/// Checks one field against the parameters.
pub fn check_field(f: &FieldSchema, params: &Vec<(String, Value)>) -> (r: bool)
    ensures
        r == field_ok(f@, params@),
{
    match find_field(params, &f.name) {
        None => !f.required,
        Some(v) => f.field_type.accepts(v) || (!f.required && matches!(v, Value::Null)),
    }
}

/// Checks `params` against every field of `schema`, in order, and reports
/// the first field that fails. Fields that the schema does not name are
/// ignored.
pub fn validate(schema: &SchemaNode, params: &Vec<(String, Value)>) -> (r: Result<(), ParamError>)
    ensures
        r is Ok <==> params_valid(schema@, params@),
        r matches Err(e) ==> exists|k: int| reports_field(e, schema@, params@, k),
{
    let mut i: usize = 0;
    while i < schema.fields.len()
        invariant
            0 <= i <= schema@.len(),
            schema@.len() == schema.fields@.len(),
            forall|j: int| 0 <= j < i ==> #[trigger] field_ok(schema@[j], params@),
        decreases schema.fields@.len() - i,
    {
        let f = &schema.fields[i];
        assert(f@ == schema@[i as int]);
        if !check_field(f, params) {
            let e = ParamError {
                field: f.name.clone(),
                problem: if find_field(params, &f.name).is_none() {
                    ParamProblem::Missing
                } else {
                    ParamProblem::WrongType
                },
                expected: f.field_type,
            };
            assert(reports_field(e, schema@, params@, i as int));
            return Err(e);
        }
        i = i + 1;
    }
    Ok(())
}

} // verus!
