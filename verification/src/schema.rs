//! The schema model: ordered sequences of named, typed, nullable-flagged
//! columns. Order is significant: it defines the output column order.

use vstd::prelude::*;

use crate::data_type::DataType;

verus! {

/// One column of a schema: a name, a column type and a nullability flag.
#[derive(Debug)]
pub struct Field {
    pub name: String,
    pub data_type: DataType,
    pub nullable: bool,
}

/// The mathematical value of a [`Field`].
pub ghost struct FieldV {
    pub name: Seq<char>,
    pub data_type: DataType,
    pub nullable: bool,
}

impl View for Field {
    type V = FieldV;

    open spec fn view(&self) -> FieldV {
        FieldV { name: self.name@, data_type: self.data_type, nullable: self.nullable }
    }
}

impl DeepView for Field {
    type V = FieldV;

    open spec fn deep_view(&self) -> FieldV {
        self@
    }
}

impl Field {
    /// Builds a field from its parts.
    pub fn new(name: String, data_type: DataType, nullable: bool) -> (r: Field)
        ensures
            r@ == (FieldV { name: name@, data_type, nullable }),
    {
        Field { name, data_type, nullable }
    }
}

impl Clone for Field {
    fn clone(&self) -> (r: Field)
        ensures
            r@ == self@,
    {
        Field { name: self.name.clone(), data_type: self.data_type, nullable: self.nullable }
    }
}

impl PartialEq for Field {
    fn eq(&self, other: &Field) -> (r: bool) {
        self.name == other.name && self.data_type == other.data_type && self.nullable
            == other.nullable
    }
}

impl vstd::std_specs::cmp::PartialEqSpecImpl for Field {
    open spec fn obeys_eq_spec() -> bool {
        true
    }

    open spec fn eq_spec(&self, other: &Field) -> bool {
        self@ == other@
    }
}

/// An ordered sequence of fields describing a tabular shape.
#[derive(Debug)]
pub struct Schema {
    fields: Vec<Field>,
}

impl View for Schema {
    type V = Seq<FieldV>;

    closed spec fn view(&self) -> Seq<FieldV> {
        self.fields.deep_view()
    }
}

/// How many fields of `s` are named `name`.
pub open spec fn count_named(s: Seq<FieldV>, name: Seq<char>) -> nat
    decreases s.len(),
{
    if s.len() == 0 {
        0
    } else {
        count_named(s.drop_last(), name) + (if s.last().name == name {
            1nat
        } else {
            0nat
        })
    }
}

/// The field of `s` that `name` resolves to: defined when exactly one field
/// of `s` carries that name, and then equal to that field.
pub open spec fn lookup_field(s: Seq<FieldV>, name: Seq<char>) -> Option<FieldV> {
    if count_named(s, name) == 1 {
        Some(s[choose|i: int| 0 <= i < s.len() && s[i].name == name])
    } else {
        None
    }
}

impl Schema {
    /// Builds a schema from an ordered list of fields.
    pub fn new(fields: Vec<Field>) -> (r: Schema)
        ensures
            r@ == fields.deep_view(),
    {
        Schema { fields }
    }

    /// The fields, in schema order.
    pub fn fields(&self) -> (r: &Vec<Field>)
        ensures
            r.deep_view() == self@,
    {
        &self.fields
    }

    /// How many columns the schema has.
    pub fn len(&self) -> (r: usize)
        ensures
            r == self@.len(),
    {
        self.fields.len()
    }

    /// The column at position `i`.
    pub fn field_at(&self, i: usize) -> (r: &Field)
        requires
            i < self@.len(),
        ensures
            r@ == self@[i as int],
    {
        &self.fields[i]
    }

    /// Resolves `name` against the schema: the unique field of that name, or
    /// `None` when the name is absent or ambiguous.
    pub fn lookup(&self, name: &String) -> (r: Option<Field>)
        ensures
            match r {
                Some(f) => lookup_field(self@, name@) == Some(f@),
                None => lookup_field(self@, name@) is None,
            },
    {
        let mut found: Option<Field> = None;
        let mut count: usize = 0;
        let n = self.fields.len();
        let mut i: usize = 0;
        while i < n
            invariant
                n == self@.len(),
                i <= n,
                count == count_named(self@.take(i as int), name@),
                count <= i,
                count == 1 ==> (found matches Some(f) && exists|j: int|
                    0 <= j < i && self@[j].name == name@ && f@ == self@[j]),
                count != 1 ==> found is None,
            decreases n - i,
        {
            proof {
                assert(self@.take(i + 1).drop_last() =~= self@.take(i as int));
                assert(self@.take(i + 1).last() == self@[i as int]);
            }
            if self.fields[i].name == *name {
                count = count + 1;
                if count == 1 {
                    found = Some(self.fields[i].clone());
                } else {
                    found = None;
                }
            }
            i = i + 1;
        }
        proof {
            assert(self@.take(n as int) =~= self@);
            if count == 1 {
                let j = choose|j: int| 0 <= j < n && self@[j].name == name@ && found->0@ == self@[j];
                let k = choose|k: int| 0 <= k < self@.len() && self@[k].name == name@;
                if j != k {
                    lemma_count_named_two(self@, name@, j, k);
                }
            }
        }
        found
    }
}

/// Two distinct positions with the same name force a count of at least two.
proof fn lemma_count_named_two(s: Seq<FieldV>, name: Seq<char>, j: int, k: int)
    requires
        0 <= j < s.len(),
        0 <= k < s.len(),
        j != k,
        s[j].name == name,
        s[k].name == name,
    ensures
        count_named(s, name) >= 2,
    decreases s.len(),
{
    let lo = if j < k {
        j
    } else {
        k
    };
    let hi = if j < k {
        k
    } else {
        j
    };
    if hi == s.len() - 1 {
        lemma_count_named_at_least_one(s.drop_last(), name, lo);
    } else {
        lemma_count_named_two(s.drop_last(), name, j, k);
    }
}

/// A position with the name forces a count of at least one.
proof fn lemma_count_named_at_least_one(s: Seq<FieldV>, name: Seq<char>, j: int)
    requires
        0 <= j < s.len(),
        s[j].name == name,
    ensures
        count_named(s, name) >= 1,
    decreases s.len(),
{
    if j < s.len() - 1 {
        lemma_count_named_at_least_one(s.drop_last(), name, j);
    }
}

impl Clone for Schema {
    fn clone(&self) -> (r: Schema)
        ensures
            r@ == self@,
    {
        let mut fields: Vec<Field> = Vec::new();
        let n = self.fields.len();
        let mut i: usize = 0;
        while i < n
            invariant
                n == self.fields@.len(),
                i <= n,
                fields@.len() == i,
                forall|j: int| 0 <= j < i ==> fields@[j]@ == self.fields@[j]@,
            decreases n - i,
        {
            fields.push(self.fields[i].clone());
            i = i + 1;
        }
        proof {
            assert forall|j: int| 0 <= j < n implies fields.deep_view()[j] == self@[j] by {
                assert(fields.deep_view()[j] == fields@[j]@);
                assert(self@[j] == self.fields@[j]@);
            }
            assert(fields.deep_view() =~= self@);
        }
        Schema { fields }
    }
}

impl PartialEq for Schema {
    fn eq(&self, other: &Schema) -> (r: bool) {
        let n = self.fields.len();
        if n != other.fields.len() {
            return false;
        }
        let mut i: usize = 0;
        while i < n
            invariant
                n == self@.len(),
                n == other@.len(),
                i <= n,
                forall|j: int| 0 <= j < i ==> self@[j] == other@[j],
            decreases n - i,
        {
            if !(self.fields[i] == other.fields[i]) {
                proof {
                    assert(self@[i as int] == self.fields@[i as int]@);
                    assert(other@[i as int] == other.fields@[i as int]@);
                }
                return false;
            }
            proof {
                assert(self@[i as int] == self.fields@[i as int]@);
                assert(other@[i as int] == other.fields@[i as int]@);
            }
            i = i + 1;
        }
        proof {
            assert(self@ =~= other@);
        }
        true
    }
}

impl vstd::std_specs::cmp::PartialEqSpecImpl for Schema {
    open spec fn obeys_eq_spec() -> bool {
        true
    }

    open spec fn eq_spec(&self, other: &Schema) -> bool {
        self@ == other@
    }
}

} // verus!
