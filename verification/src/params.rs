//! The record that carries a method's arguments, and its keyed wire form.
//!
//! Argument values travel in the encoded form that the codec gives them; this
//! module never looks inside one. It decides how the values of one call are laid
//! out under the method's parameter names, and how they are found again.

use vstd::prelude::*;

verus! {

/// One parameter of a method: its identifier and its type, as written.
#[derive(Clone, Debug, PartialEq, Eq)]
pub struct Param {
    pub ident: String,
    pub ty: String,
}

/// The mathematical value of a [`Param`].
pub struct ParamView {
    pub ident: Seq<char>,
    pub ty: Seq<char>,
}

impl View for Param {
    type V = ParamView;

    open spec fn view(&self) -> ParamView {
        ParamView { ident: self.ident@, ty: self.ty@ }
    }
}

impl DeepView for Param {
    type V = ParamView;

    open spec fn deep_view(&self) -> ParamView {
        self@
    }
}

/// One entry of a keyed payload: a field name and the encoded value under it.
#[derive(Clone, Debug, PartialEq, Eq)]
pub struct Entry {
    pub key: String,
    pub value: String,
}

/// The mathematical value of an [`Entry`].
pub struct EntryView {
    pub key: Seq<char>,
    pub value: Seq<char>,
}

impl View for Entry {
    type V = EntryView;

    open spec fn view(&self) -> EntryView {
        EntryView { key: self.key@, value: self.value@ }
    }
}

impl DeepView for Entry {
    type V = EntryView;

    open spec fn deep_view(&self) -> EntryView {
        self@
    }
}

/// The parameters of a request or of a call.
#[derive(Clone, Debug, PartialEq, Eq)]
pub enum Payload {
    /// A keyed record. The order of its entries carries no meaning.
    Record(Vec<Entry>),
    /// Any other encoded value: one that is not keyed by field names.
    Plain(String),
}

/// The mathematical value of a [`Payload`].
pub enum PayloadView {
    Record(Seq<EntryView>),
    Plain(Seq<char>),
}

impl View for Payload {
    type V = PayloadView;

    open spec fn view(&self) -> PayloadView {
        match self {
            Payload::Record(entries) => PayloadView::Record(entries.deep_view()),
            Payload::Plain(text) => PayloadView::Plain(text@),
        }
    }
}

impl DeepView for Payload {
    type V = PayloadView;

    open spec fn deep_view(&self) -> PayloadView {
        self@
    }
}

/// The shape of the record that carries the arguments of one method: its name and
/// its fields, which are the method's parameters in declared order.
#[derive(Clone, Debug, PartialEq, Eq)]
pub struct ArgsStruct {
    pub ident: String,
    pub fields: Vec<Param>,
}

/// The mathematical value of an [`ArgsStruct`].
pub struct ArgsStructView {
    pub ident: Seq<char>,
    pub fields: Seq<ParamView>,
}

impl View for ArgsStruct {
    type V = ArgsStructView;

    open spec fn view(&self) -> ArgsStructView {
        ArgsStructView { ident: self.ident@, fields: self.fields.deep_view() }
    }
}

/// The identifiers of a list of parameters, in order.
pub open spec fn idents_of(params: Seq<ParamView>) -> Seq<Seq<char>> {
    Seq::new(params.len(), |i: int| params[i].ident)
}

/// The record that holds `values[i]` under `names[i]`, in the order of the names.
pub open spec fn encode_fields(names: Seq<Seq<char>>, values: Seq<Seq<char>>) -> Seq<EntryView>
    recommends
        names.len() == values.len(),
{
    Seq::new(names.len(), |i: int| EntryView { key: names[i], value: values[i] })
}

/// Whether some entry stands under `key`.
pub open spec fn has_key(entries: Seq<EntryView>, key: Seq<char>) -> bool {
    exists|i: int| 0 <= i < entries.len() && (#[trigger] entries[i]).key == key
}

/// Whether entry `i` is the first one under `key`.
pub open spec fn is_first(entries: Seq<EntryView>, key: Seq<char>, i: int) -> bool {
    &&& 0 <= i < entries.len()
    &&& entries[i].key == key
    &&& forall|j: int| 0 <= j < i ==> (#[trigger] entries[j]).key != key
}

/// The value of the first entry under `key`, if there is one.
pub open spec fn lookup(entries: Seq<EntryView>, key: Seq<char>) -> Option<Seq<char>> {
    if has_key(entries, key) {
        Some(entries[choose|i: int| is_first(entries, key, i)].value)
    } else {
        None
    }
}

/// The values found under `names`, in the order of the names, provided that every
/// name has an entry. Entries under other keys are ignored.
pub open spec fn decode_fields(names: Seq<Seq<char>>, entries: Seq<EntryView>) -> Option<
    Seq<Seq<char>>,
> {
    if forall|i: int| 0 <= i < names.len() ==> has_key(entries, #[trigger] names[i]) {
        Some(Seq::new(names.len(), |i: int| lookup(entries, names[i]).unwrap()))
    } else {
        None
    }
}

/// The values that a payload holds for `names`. Only a keyed record holds any.
pub open spec fn decode_payload(names: Seq<Seq<char>>, payload: PayloadView) -> Option<
    Seq<Seq<char>>,
> {
    match payload {
        PayloadView::Record(entries) => decode_fields(names, entries),
        PayloadView::Plain(_) => None,
    }
}

/// The values that the parameters of a request hold for `names`. Absent parameters
/// hold none.
pub open spec fn decode_params(names: Seq<Seq<char>>, params: Option<PayloadView>) -> Option<
    Seq<Seq<char>>,
> {
    match params {
        Some(payload) => decode_payload(names, payload),
        None => None,
    }
}

/// The first entry under a key is the only first one, and `lookup` gives its value.
pub proof fn lemma_lookup_first(entries: Seq<EntryView>, key: Seq<char>, i: int)
    requires
        is_first(entries, key, i),
    ensures
        has_key(entries, key),
        lookup(entries, key) == Some(entries[i].value),
{
    let c = choose|c: int| is_first(entries, key, c);
    if c < i {
        assert(entries[c].key != key);
    }
    if i < c {
        assert(entries[i].key != key);
    }
}

/// Among the entries under a key, one is the first.
pub proof fn lemma_first_exists(entries: Seq<EntryView>, key: Seq<char>) -> (i: int)
    requires
        has_key(entries, key),
    ensures
        is_first(entries, key, i),
{
    let k = choose|k: int| 0 <= k < entries.len() && (#[trigger] entries[k]).key == key;
    first_up_to(entries, key, k)
}

proof fn first_up_to(entries: Seq<EntryView>, key: Seq<char>, k: int) -> (i: int)
    requires
        0 <= k < entries.len(),
        entries[k].key == key,
    ensures
        is_first(entries, key, i),
        i <= k,
    decreases k,
{
    if exists|j: int| 0 <= j < k && (#[trigger] entries[j]).key == key {
        let j = choose|j: int| 0 <= j < k && (#[trigger] entries[j]).key == key;
        first_up_to(entries, key, j)
    } else {
        k
    }
}

/// Whether the values under one name are all the same: no two positions have the
/// same name and different values. This holds of any values when the names are
/// pairwise different.
pub open spec fn single_valued(names: Seq<Seq<char>>, values: Seq<Seq<char>>) -> bool {
    forall|i: int, j: int|
        0 <= i < names.len() && 0 <= j < names.len() && #[trigger] names[i] == #[trigger] names[j]
            ==> values[i] == values[j]
}

/// Decoding undoes encoding, in whatever order the entries arrive: where the
/// values under one name are all the same and `entries` holds exactly the entries
/// that encoding `values` under `names` gives, in any order, decoding `entries`
/// under `names` gives `values` back, field for field.
pub proof fn lemma_decode_permuted_encoding(
    names: Seq<Seq<char>>,
    values: Seq<Seq<char>>,
    entries: Seq<EntryView>,
)
    requires
        names.len() == values.len(),
        single_valued(names, values),
        entries.to_multiset() == encode_fields(names, values).to_multiset(),
    ensures
        decode_fields(names, entries) == Some(values),
{
    let encoded = encode_fields(names, values);
    encoded.to_multiset_ensures();
    entries.to_multiset_ensures();
    assert forall|i: int| 0 <= i < names.len() implies has_key(entries, #[trigger] names[i])
        && lookup(entries, names[i]) == Some(values[i]) by {
        // The entry that encoding makes for this name is among the entries.
        assert(encoded[i].key == names[i]);
        assert(encoded.to_multiset().count(encoded[i]) > 0);
        assert(entries.contains(encoded[i]));
        let at = choose|at: int| 0 <= at < entries.len() && entries[at] == encoded[i];
        assert(entries[at].key == names[i]);
        // The first entry under this name was made by encoding, for a position with
        // the same name and so with the same value.
        let first = lemma_first_exists(entries, names[i]);
        lemma_lookup_first(entries, names[i], first);
        assert(entries.to_multiset().count(entries[first]) > 0);
        assert(encoded.contains(entries[first]));
        let from = choose|from: int| 0 <= from < encoded.len() && encoded[from] == entries[first];
        assert(names[from] == names[i]);
        assert(values[from] == values[i]);
    }
    assert(decode_fields(names, entries).unwrap() =~= values);
}

/// Where two positions have the same name and different values, decoding does not
/// give the values back: it finds one value under the name, for both positions.
pub proof fn lemma_decode_needs_single_values(
    names: Seq<Seq<char>>,
    values: Seq<Seq<char>>,
    entries: Seq<EntryView>,
)
    requires
        names.len() == values.len(),
        !single_valued(names, values),
    ensures
        decode_fields(names, entries) != Some(values),
{
    let (i, j) = choose|i: int, j: int|
        0 <= i < names.len() && 0 <= j < names.len() && #[trigger] names[i] == #[trigger] names[j]
            && values[i] != values[j];
    if decode_fields(names, entries) == Some(values) {
        assert(decode_fields(names, entries).unwrap()[i] == lookup(entries, names[i]).unwrap());
        assert(decode_fields(names, entries).unwrap()[j] == lookup(entries, names[j]).unwrap());
    }
}

/// Copies a list of parameters.
pub fn clone_params(params: &Vec<Param>) -> (r: Vec<Param>)
    ensures
        r.deep_view() == params.deep_view(),
{
    let mut out: Vec<Param> = Vec::new();
    let mut i: usize = 0;
    while i < params.len()
        invariant
            i <= params.len(),
            out.len() == i,
            forall|k: int| 0 <= k < i ==> out[k]@ == params[k]@,
        decreases params.len() - i,
    {
        out.push(Param { ident: params[i].ident.clone(), ty: params[i].ty.clone() });
        i += 1;
    }
    out
}

/// The identifiers of a list of parameters, in order.
pub fn param_idents(params: &Vec<Param>) -> (r: Vec<String>)
    ensures
        r.deep_view() == idents_of(params.deep_view()),
{
    let mut out: Vec<String> = Vec::new();
    let mut i: usize = 0;
    while i < params.len()
        invariant
            i <= params.len(),
            out.len() == i,
            forall|k: int| 0 <= k < i ==> out[k]@ == params[k]@.ident,
        decreases params.len() - i,
    {
        out.push(params[i].ident.clone());
        i += 1;
    }
    out
}

/// Lays `values` out under `names`, one entry for each name, in the order of the
/// names. There is no such record when the two differ in length.
pub fn encode_record(names: &Vec<String>, values: &Vec<String>) -> (r: Option<Vec<Entry>>)
    ensures
        r is Some <==> names.len() == values.len(),
        r matches Some(entries) ==> entries.deep_view() == encode_fields(
            names.deep_view(),
            values.deep_view(),
        ),
{
    if names.len() != values.len() {
        return None;
    }
    let mut entries: Vec<Entry> = Vec::new();
    let mut i: usize = 0;
    while i < names.len()
        invariant
            i <= names.len(),
            names.len() == values.len(),
            entries.len() == i,
            forall|k: int|
                0 <= k < i ==> entries[k]@ == (EntryView { key: names[k]@, value: values[k]@ }),
        decreases names.len() - i,
    {
        entries.push(Entry { key: names[i].clone(), value: values[i].clone() });
        i += 1;
    }
    Some(entries)
}

/// The position of the first entry under `key`.
pub fn find_entry(entries: &Vec<Entry>, key: &String) -> (r: Option<usize>)
    ensures
        r is Some <==> has_key(entries.deep_view(), key@),
        r matches Some(i) ==> is_first(entries.deep_view(), key@, i as int),
{
    let mut i: usize = 0;
    while i < entries.len()
        invariant
            i <= entries.len(),
            forall|j: int| 0 <= j < i ==> (#[trigger] entries.deep_view()[j]).key != key@,
        decreases entries.len() - i,
    {
        if entries[i].key == *key {
            assert(entries.deep_view()[i as int].key == key@);
            return Some(i);
        }
        i += 1;
    }
    None
}

/// Reads the values under `names` out of a record, in the order of the names.
/// Succeeds exactly when every name has an entry; where a key occurs more than
/// once, its first entry counts.
pub fn decode_record(names: &Vec<String>, entries: &Vec<Entry>) -> (r: Option<Vec<String>>)
    ensures
        r is Some <==> decode_fields(names.deep_view(), entries.deep_view()) is Some,
        r matches Some(values) ==> decode_fields(names.deep_view(), entries.deep_view())
            == Some(values.deep_view()),
{
    let ghost keys = names.deep_view();
    let ghost record = entries.deep_view();
    let mut values: Vec<String> = Vec::new();
    let mut i: usize = 0;
    while i < names.len()
        invariant
            i <= names.len(),
            keys == names.deep_view(),
            record == entries.deep_view(),
            values.len() == i,
            forall|k: int| 0 <= k < i ==> has_key(record, #[trigger] keys[k]),
            forall|k: int| 0 <= k < i ==> lookup(record, keys[k]) == Some(#[trigger] values[k]@),
        decreases names.len() - i,
    {
        match find_entry(entries, &names[i]) {
            Some(at) => {
                proof {
                    lemma_lookup_first(record, keys[i as int], at as int);
                }
                values.push(entries[at].value.clone());
            },
            None => {
                assert(!has_key(record, keys[i as int]));
                return None;
            },
        }
        i += 1;
    }
    Some(values)
}

impl ArgsStruct {
    /// The names of the fields, in declared order.
    pub fn field_names(&self) -> (r: Vec<String>)
        ensures
            r.deep_view() == idents_of(self@.fields),
    {
        param_idents(&self.fields)
    }

    /// Encodes one instance of the record: `values[i]` is the encoded value of
    /// field `i`. The entries come in declared order. There is no instance unless
    /// there is one value for each field.
    pub fn encode(&self, values: &Vec<String>) -> (r: Option<Payload>)
        ensures
            r is Some <==> values.len() == self@.fields.len(),
            r matches Some(payload) ==> payload@ == PayloadView::Record(
                encode_fields(idents_of(self@.fields), values.deep_view()),
            ),
    {
        let names = self.field_names();
        assert(names.len() == names.deep_view().len());
        match encode_record(&names, values) {
            Some(entries) => Some(Payload::Record(entries)),
            None => None,
        }
    }

    /// Decodes one instance of the record from a payload: the encoded value of each
    /// field, in declared order. The fields are found by name, wherever they stand
    /// in the payload. Fails unless the payload is a record with an entry for each
    /// field.
    pub fn decode(&self, payload: &Payload) -> (r: Option<Vec<String>>)
        ensures
            r is Some <==> decode_payload(idents_of(self@.fields), payload@) is Some,
            r matches Some(values) ==> decode_payload(idents_of(self@.fields), payload@)
                == Some(values.deep_view()),
    {
        match payload {
            Payload::Record(entries) => {
                let names = self.field_names();
                decode_record(&names, entries)
            },
            Payload::Plain(_) => None,
        }
    }
}

} // verus!
