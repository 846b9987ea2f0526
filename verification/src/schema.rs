//! Schemas: the list of variables to read, each with its type and rules,
//! and the builder that adds them one at a time.
use vstd::prelude::*;

verus! {

/// Field type specification.
#[derive(Debug, Clone, Copy, PartialEq, Eq, Structural)]
pub enum FieldType {
    Str,
    Int,
    Float,
    Bool,
    Url,
}

/// Configuration for a single environment variable.
#[derive(Debug)]
pub struct FieldSpec {
    pub name: String,
    pub field_type: FieldType,
    pub required: bool,
    pub default: Option<String>,
    pub choices: Option<Vec<String>>,
}

/// The mathematical content of a [`FieldSpec`].
pub struct FieldModel {
    pub name: Seq<char>,
    pub field_type: FieldType,
    pub required: bool,
    pub default: Option<Seq<char>>,
    pub choices: Option<Seq<Seq<char>>>,
}

/// The model of a field as the builder first makes it: required, with no
/// default and no list of choices.
pub open spec fn fresh_field(name: Seq<char>, field_type: FieldType) -> FieldModel {
    FieldModel { name, field_type, required: true, default: None, choices: None }
}

impl View for FieldSpec {
    type V = FieldModel;

    open spec fn view(&self) -> FieldModel {
        FieldModel {
            name: self.name@,
            field_type: self.field_type,
            required: self.required,
            default: match self.default {
                Some(d) => Some(d@),
                None => None,
            },
            choices: match self.choices {
                Some(c) => Some(c.deep_view()),
                None => None,
            },
        }
    }
}

impl Clone for FieldSpec {
    fn clone(&self) -> (copy: Self)
        ensures
            copy@ == self@,
    {
        let default = match &self.default {
            Some(d) => Some(d.clone()),
            None => None,
        };
        let choices = match &self.choices {
            Some(c) => {
                let copy = c.clone();
                assert(copy@ =~= c@);
                Some(copy)
            },
            None => None,
        };
        FieldSpec {
            name: self.name.clone(),
            field_type: self.field_type,
            required: self.required,
            default,
            choices,
        }
    }
}

/// Schema builder for environment variable validation.
#[derive(Debug)]
pub struct Schema {
    fields: Vec<FieldSpec>,
}

impl View for Schema {
    type V = Seq<FieldModel>;

    closed spec fn view(&self) -> Seq<FieldModel> {
        self.fields@.map_values(|f: FieldSpec| f@)
    }
}

impl Clone for Schema {
    fn clone(&self) -> (copy: Self)
        ensures
            copy@ == self@,
    {
        let mut fields: Vec<FieldSpec> = Vec::new();
        let mut i: usize = 0;
        while i < self.fields.len()
            invariant
                i <= self.fields@.len(),
                fields@.len() == i,
                forall|j: int| 0 <= j < i ==> (#[trigger] fields@[j])@ == self.fields@[j]@,
            decreases self.fields@.len() - i,
        {
            fields.push(self.fields[i].clone());
            i = i + 1;
        }
        let copy = Schema { fields };
        assert(copy@ =~= self@);
        copy
    }
}

impl Default for Schema {
    fn default() -> (s: Self)
        ensures
            s@ == Seq::<FieldModel>::empty(),
    {
        let s = Schema { fields: Vec::new() };
        assert(s@ =~= Seq::<FieldModel>::empty());
        s
    }
}

impl Schema {
    /// The specifications of the fields, in the order they were added.
    pub fn fields(&self) -> (fields: &Vec<FieldSpec>)
        ensures
            fields@.map_values(|f: FieldSpec| f@) == self@,
    {
        &self.fields
    }

    /// An empty schema.
    pub fn new() -> (s: Self)
        ensures
            s@ == Seq::<FieldModel>::empty(),
    {
        Self::default()
    }

    /// Starts a string field named `name`.
    pub fn string(self, name: &str) -> (b: FieldSpecBuilder)
        ensures
            b@ == (self@, fresh_field(name@, FieldType::Str)),
    {
        FieldSpecBuilder::new(self, name, FieldType::Str)
    }

    /// Starts an integer field named `name`.
    pub fn integer(self, name: &str) -> (b: FieldSpecBuilder)
        ensures
            b@ == (self@, fresh_field(name@, FieldType::Int)),
    {
        FieldSpecBuilder::new(self, name, FieldType::Int)
    }

    /// Starts a float field named `name`.
    pub fn float(self, name: &str) -> (b: FieldSpecBuilder)
        ensures
            b@ == (self@, fresh_field(name@, FieldType::Float)),
    {
        FieldSpecBuilder::new(self, name, FieldType::Float)
    }

    /// Starts a boolean field named `name`.
    pub fn boolean(self, name: &str) -> (b: FieldSpecBuilder)
        ensures
            b@ == (self@, fresh_field(name@, FieldType::Bool)),
    {
        FieldSpecBuilder::new(self, name, FieldType::Bool)
    }

    /// Starts a URL field named `name`.
    pub fn url(self, name: &str) -> (b: FieldSpecBuilder)
        ensures
            b@ == (self@, fresh_field(name@, FieldType::Url)),
    {
        FieldSpecBuilder::new(self, name, FieldType::Url)
    }
}

/// Builder for field specifications.
pub struct FieldSpecBuilder {
    schema: Schema,
    spec: FieldSpec,
}

impl View for FieldSpecBuilder {
    /// The fields of the schema being extended, and the field being built.
    type V = (Seq<FieldModel>, FieldModel);

    closed spec fn view(&self) -> (Seq<FieldModel>, FieldModel) {
        (self.schema@, self.spec@)
    }
}

impl FieldSpecBuilder {
    fn new(schema: Schema, name: &str, field_type: FieldType) -> (b: Self)
        ensures
            b@ == (schema@, fresh_field(name@, field_type)),
    {
        Self {
            schema,
            spec: FieldSpec {
                name: name.to_string(),
                field_type,
                required: true,
                default: None,
                choices: None,
            },
        }
    }

    /// Sets whether the field must be present.
    pub fn required(self, r: bool) -> (b: Self)
        ensures
            b@ == (self@.0, FieldModel { required: r, ..self@.1 }),
    {
        let mut b = self;
        b.spec.required = r;
        b
    }

    /// Sets the text used when the variable is absent or empty.
    pub fn default_value(self, v: &str) -> (b: Self)
        ensures
            b@ == (self@.0, FieldModel { default: Some(v@), ..self@.1 }),
    {
        let mut b = self;
        b.spec.default = Some(v.to_string());
        b
    }

    /// Restricts the accepted texts to `c`.
    pub fn choices(self, c: &[&str]) -> (b: Self)
        ensures
            b@ == (self@.0, FieldModel {
                choices: Some(c@.map_values(|s: &str| s@)),
                ..self@.1
            }),
    {
        let mut list: Vec<String> = Vec::new();
        let mut i: usize = 0;
        while i < c.len()
            invariant
                i <= c@.len(),
                list@.len() == i,
                forall|j: int| 0 <= j < i ==> (#[trigger] list@[j])@ == c@[j]@,
            decreases c@.len() - i,
        {
            list.push(c[i].to_string());
            i = i + 1;
        }
        assert(list.deep_view() =~= c@.map_values(|s: &str| s@));
        let mut b = self;
        b.spec.choices = Some(list);
        b
    }

    /// Adds the field to the schema and returns the schema.
    pub fn build(self) -> (s: Schema)
        ensures
            s@ == self@.0.push(self@.1),
    {
        let mut b = self;
        b.schema.fields.push(b.spec);
        proof {
            assert(b.schema@ =~= self@.0.push(self@.1));
        }
        b.schema
    }
}

} // verus!
