//! The stored unit of the index: a flat record from field names to values.

use vstd::prelude::*;

verus! {

/// Value of one stored field, as far as this crate reads it.
#[derive(Debug, Clone, PartialEq, Eq)]
pub enum FieldValue {
    /// A string.
    Text(String),
    /// A whole number that fits a signed 64-bit integer.
    Integer(i64),
    /// Any other stored value: null, a boolean, a fraction, a list, a record.
    Other,
}

/// Mathematical value of a [`FieldValue`].
pub enum ValueView {
    Text(Seq<char>),
    Integer(int),
    Other,
}

impl View for FieldValue {
    type V = ValueView;

    open spec fn view(&self) -> ValueView {
        match *self {
            FieldValue::Text(text) => ValueView::Text(text@),
            FieldValue::Integer(number) => ValueView::Integer(number as int),
            FieldValue::Other => ValueView::Other,
        }
    }
}

/// One named field of a document.
#[derive(Debug, Clone, PartialEq, Eq)]
pub struct Field {
    pub name: String,
    pub value: FieldValue,
}

/// Mathematical value of a [`Field`].
pub struct FieldView {
    pub name: Seq<char>,
    pub value: ValueView,
}

impl View for Field {
    type V = FieldView;

    open spec fn view(&self) -> FieldView {
        FieldView { name: self.name@, value: self.value@ }
    }
}

/// Mathematical value of a [`Document`]: a finite map from names to values.
pub type DocumentView = Map<Seq<char>, ValueView>;

/// The values of a list of fields, in the same order.
pub open spec fn fields_view(fields: Seq<Field>) -> Seq<FieldView> {
    fields.map_values(|field: Field| field@)
}

/// The record that a list of fields stands for. A name that occurs more than
/// once keeps the value of its last occurrence, as when the fields are
/// written into a map one after the other.
pub open spec fn fields_map(fields: Seq<FieldView>) -> DocumentView
    decreases fields.len(),
{
    if fields.len() == 0 {
        Map::empty()
    } else {
        fields_map(fields.drop_last()).insert(fields.last().name, fields.last().value)
    }
}

/// No name occurs twice in the list.
pub open spec fn distinct_names(fields: Seq<FieldView>) -> bool {
    forall|i: int, j: int| 0 <= i < j < fields.len() ==> fields[i].name != fields[j].name
}

/// A name is a key of the record exactly when some field of the list has it.
pub proof fn lemma_fields_map_keys(fields: Seq<FieldView>, name: Seq<char>)
    ensures
        fields_map(fields).contains_key(name) <==> exists|i: int|
            0 <= i < fields.len() && #[trigger] fields[i].name == name,
    decreases fields.len(),
{
    if fields.len() > 0 {
        let front = fields.drop_last();
        lemma_fields_map_keys(front, name);
        if fields_map(fields).contains_key(name) {
            if fields.last().name == name {
                assert(fields[fields.len() - 1].name == name);
            } else {
                let i = choose|i: int| 0 <= i < front.len() && #[trigger] front[i].name == name;
                assert(fields[i].name == name);
            }
        }
        if exists|i: int| 0 <= i < fields.len() && #[trigger] fields[i].name == name {
            let i = choose|i: int| 0 <= i < fields.len() && #[trigger] fields[i].name == name;
            if i < fields.len() - 1 {
                assert(front[i].name == name);
            }
        }
    }
}

/// Where no name occurs twice, every field of the list is found in the record
/// under its own name.
pub proof fn lemma_fields_map_value(fields: Seq<FieldView>, i: int)
    requires
        distinct_names(fields),
        0 <= i < fields.len(),
    ensures
        fields_map(fields).contains_key(fields[i].name),
        fields_map(fields)[fields[i].name] == fields[i].value,
    decreases fields.len(),
{
    let front = fields.drop_last();
    if i < fields.len() - 1 {
        assert(distinct_names(front)) by {
            assert forall|a: int, b: int| 0 <= a < b < front.len() implies front[a].name
                != front[b].name by {
                assert(fields[a].name != fields[b].name);
            }
        }
        lemma_fields_map_value(front, i);
        assert(front[i] == fields[i]);
        assert(fields[i].name != fields[fields.len() - 1].name);
    }
}

/// The record of a list with one more field at its end.
pub proof fn lemma_fields_map_push(fields: Seq<FieldView>, field: FieldView)
    ensures
        fields_map(fields.push(field)) == fields_map(fields).insert(field.name, field.value),
{
    assert(fields.push(field).drop_last() =~= fields);
}

/// Where no name occurs twice, giving one field a new value under its old
/// name changes the record at that name only, and no name occurs twice after.
pub proof fn lemma_fields_map_update(fields: Seq<FieldView>, i: int, field: FieldView)
    requires
        distinct_names(fields),
        0 <= i < fields.len(),
        fields[i].name == field.name,
    ensures
        distinct_names(fields.update(i, field)),
        fields_map(fields.update(i, field)) == fields_map(fields).insert(field.name, field.value),
{
    let after = fields.update(i, field);
    assert(distinct_names(after)) by {
        assert forall|a: int, b: int| 0 <= a < b < after.len() implies after[a].name
            != after[b].name by {
            assert(fields[a].name != fields[b].name);
        }
    }
    let expected = fields_map(fields).insert(field.name, field.value);
    assert forall|name: Seq<char>| fields_map(after).contains_key(name) <==> expected.contains_key(
        name,
    ) by {
        lemma_fields_map_keys(after, name);
        lemma_fields_map_keys(fields, name);
        if fields_map(after).contains_key(name) {
            let a = choose|a: int| 0 <= a < after.len() && #[trigger] after[a].name == name;
            assert(fields[a].name == name);
        }
        if fields_map(fields).contains_key(name) {
            let a = choose|a: int| 0 <= a < fields.len() && #[trigger] fields[a].name == name;
            assert(after[a].name == name);
        }
        if name == field.name {
            assert(after[i].name == name);
        }
    }
    assert forall|name: Seq<char>| fields_map(after).contains_key(name) implies fields_map(
        after,
    )[name] == expected[name] by {
        lemma_fields_map_keys(after, name);
        let a = choose|a: int| 0 <= a < after.len() && #[trigger] after[a].name == name;
        lemma_fields_map_value(after, a);
        if a != i {
            lemma_fields_map_value(fields, a);
        }
    }
    assert(fields_map(after) =~= expected);
}

/// A persisted record: a flat map from field names to values. A field that
/// is absent has no key; nothing is stored as a null.
#[derive(Debug)]
pub struct Document {
    fields: Vec<Field>,
}

impl View for Document {
    type V = DocumentView;

    closed spec fn view(&self) -> DocumentView {
        fields_map(fields_view(self.fields@))
    }
}

impl Document {
    #[verifier::type_invariant]
    spec fn names_are_distinct(self) -> bool {
        distinct_names(fields_view(self.fields@))
    }

    /// The record without any field.
    pub fn new() -> (document: Document)
        ensures
            document@ == Map::<Seq<char>, ValueView>::empty(),
    {
        Document { fields: Vec::new() }
    }

    /// The value stored under `name`, if the record has that field.
    pub fn get(&self, name: &str) -> (found: Option<&FieldValue>)
        ensures
            match found {
                Some(value) => self@.contains_key(name@) && self@[name@] == value@,
                None => !self@.contains_key(name@),
            },
    {
        proof {
            use_type_invariant(self);
        }
        let key = name.to_owned();
        let ghost fields = fields_view(self.fields@);
        let mut i: usize = 0;
        while i < self.fields.len()
            invariant
                i <= self.fields.len(),
                key@ == name@,
                fields == fields_view(self.fields@),
                distinct_names(fields),
                forall|j: int| 0 <= j < i ==> (#[trigger] fields[j]).name != name@,
            decreases self.fields.len() - i,
        {
            if self.fields[i].name == key {
                proof {
                    lemma_fields_map_value(fields, i as int);
                }
                return Some(&self.fields[i].value);
            }
            i += 1;
        }
        proof {
            lemma_fields_map_keys(fields, name@);
        }
        None
    }

    /// Stores `value` under `name`, in place of whatever the record held
    /// under that name before.
    pub fn insert(&mut self, name: String, value: FieldValue)
        ensures
            final(self)@ == old(self)@.insert(name@, value@),
    {
        proof {
            use_type_invariant(&*self);
        }
        let mut fields: Vec<Field> = Vec::new();
        core::mem::swap(&mut self.fields, &mut fields);
        let ghost before = fields_view(fields@);
        let ghost added = FieldView { name: name@, value: value@ };
        let mut i: usize = 0;
        while i < fields.len()
            invariant
                i <= fields.len(),
                before == fields_view(fields@),
                forall|j: int| 0 <= j < i ==> (#[trigger] before[j]).name != name@,
            ensures
                i < fields.len() ==> before[i as int].name == name@,
            decreases fields.len() - i,
        {
            if fields[i].name == name {
                break ;
            }
            i += 1;
        }
        if i < fields.len() {
            fields.set(i, Field { name, value });
            proof {
                assert(fields_view(fields@) =~= before.update(i as int, added));
                lemma_fields_map_update(before, i as int, added);
            }
        } else {
            fields.push(Field { name, value });
            proof {
                assert(fields_view(fields@) =~= before.push(added));
                lemma_fields_map_push(before, added);
            }
        }
        self.fields = fields;
    }

    /// The record that results from writing the fields one after the other.
    pub fn from_fields(fields: Vec<Field>) -> (document: Document)
        ensures
            document@ == fields_map(fields_view(fields@)),
    {
        let ghost all = fields_view(fields@);
        let mut document = Document::new();
        for field in iter: fields.into_iter()
            invariant
                iter.seq().len() == all.len(),
                forall|j: int| 0 <= j < all.len() ==> (#[trigger] iter.seq()[j])@ == all[j],
                document@ == fields_map(all.take(iter.index() as int)),
        {
            proof {
                let done = all.take(iter.index() as int);
                assert(all.take(iter.index() + 1) =~= done.push(field@));
                lemma_fields_map_push(done, field@);
            }
            document.insert(field.name, field.value);
        }
        proof {
            assert(all.take(all.len() as int) =~= all);
        }
        document
    }

    /// The fields of the record, each name once, in no particular order.
    pub fn into_fields(self) -> (fields: Vec<Field>)
        ensures
            distinct_names(fields_view(fields@)),
            fields_map(fields_view(fields@)) == self@,
    {
        proof {
            use_type_invariant(&self);
        }
        self.fields
    }
}

} // verus!
