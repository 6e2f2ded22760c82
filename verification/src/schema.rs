//! The dialog that asks for a workflow's inputs, field by field, from its JSON schema.
use vstd::prelude::*;
use crate::k8s_model::{opt_str_view, strs_view, clone_strings, clone_opt_string};
use crate::text::{owned, int_syntax};
use crate::filters::{Key, KeyPress};

verus! {

/// A property of an input schema, as the dialog reads it.
pub struct SchemaProperty {
    pub key: String,
    /// Its `description`, when that is a string.
    pub description: Option<String>,
    /// Its `default`: the string itself, or the JSON text of another value.
    pub default_text: Option<String>,
    /// Its `enum` values (each a string, or the JSON text of another value).
    pub enum_options: Option<Vec<String>>,
    /// Its `type`, when that is a string.
    pub schema_type: Option<String>,
}

/// The parts of an input schema the dialog reads.
pub struct SchemaShape {
    /// The `properties` object, in order; `None` when the schema has none.
    pub properties: Option<Vec<SchemaProperty>>,
    /// The string entries of `required`.
    pub required: Vec<String>,
}

/// One input field of the dialog.
pub struct SchemaField {
    pub name: String,
    pub description: String,
    pub required: bool,
    /// The text in the field.
    pub input: String,
    pub options: Vec<String>,
    pub error: Option<String>,
    pub is_enum: bool,
    pub schema_type: String,
    /// The highlighted option of the drop-down list.
    pub selected_option: Option<usize>,
}

pub struct SchemaFieldView {
    pub name: Seq<char>,
    pub description: Seq<char>,
    pub required: bool,
    pub input: Seq<char>,
    pub options: Seq<Seq<char>>,
    pub error: Option<Seq<char>>,
    pub is_enum: bool,
    pub schema_type: Seq<char>,
    pub selected_option: Option<usize>,
}

impl View for SchemaField {
    type V = SchemaFieldView;

    open spec fn view(&self) -> SchemaFieldView {
        SchemaFieldView {
            name: self.name@,
            description: self.description@,
            required: self.required,
            input: self.input@,
            options: strs_view(self.options@),
            error: opt_str_view(self.error),
            is_enum: self.is_enum,
            schema_type: self.schema_type@,
            selected_option: self.selected_option,
        }
    }
}

pub open spec fn fields_view(v: Seq<SchemaField>) -> Seq<SchemaFieldView> {
    v.map_values(|f: SchemaField| f@)
}

/// The dialog.
pub struct SchemaDialog {
    pub fields: Vec<SchemaField>,
    pub focus: usize,
    pub scroll_offset: usize,
    /// The schema the dialog was opened with, as JSON text.
    pub base_schema_json: String,
    pub dsl: String,
    pub is_hydrating: bool,
    pub hydration_status: String,
    pub global_errors: Vec<String>,
}

/// A value the dialog hands on for an input.
pub enum InputValue {
    Int(i64),
    Bool(bool),
    Text(String),
}

pub enum InputValueView {
    Int(i64),
    Bool(bool),
    Text(Seq<char>),
}

impl View for InputValue {
    type V = InputValueView;

    open spec fn view(&self) -> InputValueView {
        match self {
            InputValue::Int(n) => InputValueView::Int(*n),
            InputValue::Bool(b) => InputValueView::Bool(*b),
            InputValue::Text(t) => InputValueView::Text(t@),
        }
    }
}

/// The value of a field's text for its schema type: integers and numbers as `i64` when the
/// text is one, booleans when it is `true` or `false`, the text otherwise.
pub open spec fn input_value(schema_type: Seq<char>, text: Seq<char>) -> InputValueView {
    if schema_type == "integer"@ || schema_type == "number"@ {
        match int_syntax(text) {
            Some(n) => if i64::MIN <= n <= i64::MAX { InputValueView::Int(n as i64) } else { InputValueView::Text(text) },
            None => InputValueView::Text(text),
        }
    } else if schema_type == "boolean"@ {
        if text == "true"@ {
            InputValueView::Bool(true)
        } else if text == "false"@ {
            InputValueView::Bool(false)
        } else {
            InputValueView::Text(text)
        }
    } else {
        InputValueView::Text(text)
    }
}

/// The inputs a dialog hands on: each field with text, by name, in field order.
pub open spec fn inputs_of(fields: Seq<SchemaFieldView>) -> Seq<(Seq<char>, InputValueView)>
    decreases fields.len(),
{
    if fields.len() == 0 {
        Seq::empty()
    } else {
        let f = fields.last();
        let rest = inputs_of(fields.drop_last());
        if f.input.len() > 0 { rest.push((f.name, input_value(f.schema_type, f.input))) } else { rest }
    }
}

pub open spec fn entries_view(v: Seq<(String, InputValue)>) -> Seq<(Seq<char>, InputValueView)> {
    v.map_values(|e: (String, InputValue)| (e.0@, e.1@))
}

/// The field a property makes: its description (empty when none), whether it is required,
/// the given text (else its default, else nothing), its options when it has `enum`, and its
/// type (`string` when none).
pub open spec fn field_from(p: SchemaProperty, required: Seq<Seq<char>>, given: Option<Seq<char>>) -> SchemaFieldView {
    SchemaFieldView {
        name: p.key@,
        description: match opt_str_view(p.description) { Some(d) => d, None => Seq::empty() },
        required: required.contains(p.key@),
        input: match given {
            Some(t) => t,
            None => match opt_str_view(p.default_text) { Some(d) => d, None => Seq::empty() },
        },
        options: match p.enum_options { Some(o) => strs_view(o@), None => Seq::empty() },
        error: None,
        is_enum: p.enum_options is Some,
        schema_type: match opt_str_view(p.schema_type) { Some(t) => t, None => "string"@ },
        selected_option: None,
    }
}

/// The text given for `key` among `inputs` (the first entry with that key).
pub open spec fn given_text(inputs: Seq<(Seq<char>, Seq<char>)>, key: Seq<char>) -> Option<Seq<char>>
    decreases inputs.len(),
{
    if inputs.len() == 0 {
        None
    } else if inputs[0].0 == key {
        Some(inputs[0].1)
    } else {
        given_text(inputs.drop_first(), key)
    }
}

fn contains_string(v: &Vec<String>, s: &String) -> (r: bool)
    ensures
        r == strs_view(v@).contains(s@),
{
    crate::run_events::contains_text(v, s)
}

pub(crate) fn lookup_given(inputs: &Vec<(String, String)>, key: &String) -> (r: Option<String>)
    ensures
        opt_str_view(r) == given_text(crate::k8s_model::pairs_view(inputs@), key@),
{
    let ghost pv = crate::k8s_model::pairs_view(inputs@);
    assert(pv.skip(0) =~= pv);
    let mut i: usize = 0;
    while i < inputs.len()
        invariant
            i <= inputs@.len(),
            pv == crate::k8s_model::pairs_view(inputs@),
            given_text(pv, key@) == given_text(pv.skip(i as int), key@),
        decreases inputs@.len() - i,
    {
        assert(pv.skip(i as int)[0] == pv[i as int]);
        assert(pv.skip(i as int).drop_first() =~= pv.skip(i + 1));
        if inputs[i].0 == *key {
            return Some(inputs[i].1.clone());
        }
        i = i + 1;
    }
    assert(pv.skip(i as int).len() == 0);
    None
}

/// Makes the field for a property.
fn make_field(p: &SchemaProperty, required: &Vec<String>, given: Option<String>) -> (f: SchemaField)
    ensures
        f@ == field_from(*p, strs_view(required@), opt_str_view(given)),
{
    let ghost gv = opt_str_view(given);
    let input = match given {
        Some(t) => t,
        None => match &p.default_text {
            Some(d) => d.clone(),
            None => String::new(),
        },
    };
    let description = match &p.description {
        Some(d) => d.clone(),
        None => String::new(),
    };
    let options = match &p.enum_options {
        Some(o) => clone_strings(o),
        None => Vec::new(),
    };
    let schema_type = match &p.schema_type {
        Some(t) => t.clone(),
        None => owned("string"),
    };
    let f = SchemaField {
        name: p.key.clone(),
        description,
        required: contains_string(required, &p.key),
        input,
        options,
        error: None,
        is_enum: p.enum_options.is_some(),
        schema_type,
        selected_option: None,
    };
    assert(f@.options =~= field_from(*p, strs_view(required@), gv).options);
    assert(f@.description =~= field_from(*p, strs_view(required@), gv).description);
    assert(f@.input =~= field_from(*p, strs_view(required@), gv).input);
    assert(f@.schema_type =~= field_from(*p, strs_view(required@), gv).schema_type);
    f
}

impl SchemaDialog {
    /// Opens the dialog on a schema: one field per property, in order, with the given input
    /// texts; the focus on the first field and the status `Ready`.
    pub fn new(shape: &SchemaShape, base_schema_json: String, dsl: String, inputs: &Vec<(String, String)>) -> (d: SchemaDialog)
        ensures
            fields_view(d.fields@) == match shape.properties {
                Some(ps) => ps@.map_values(|p: SchemaProperty| field_from(
                    p,
                    strs_view(shape.required@),
                    given_text(crate::k8s_model::pairs_view(inputs@), p.key@),
                )),
                None => Seq::empty(),
            },
            d.focus == 0,
            d.scroll_offset == 0,
            d.base_schema_json == base_schema_json,
            d.dsl == dsl,
            !d.is_hydrating,
            d.hydration_status@ == "Ready"@,
            d.global_errors@.len() == 0,
    {
        let mut fields: Vec<SchemaField> = Vec::new();
        match &shape.properties {
            Some(ps) => {
                let mut i: usize = 0;
                while i < ps.len()
                    invariant
                        i <= ps@.len(),
                        fields@.len() == i,
                        forall|j: int| 0 <= j < i ==> #[trigger] fields@[j]@ == field_from(
                            ps@[j],
                            strs_view(shape.required@),
                            given_text(crate::k8s_model::pairs_view(inputs@), ps@[j].key@),
                        ),
                    decreases ps@.len() - i,
                {
                    let given = lookup_given(inputs, &ps[i].key);
                    let f = make_field(&ps[i], &shape.required, given);
                    fields.push(f);
                    i = i + 1;
                }
                assert(fields_view(fields@) =~= ps@.map_values(|p: SchemaProperty| field_from(
                    p,
                    strs_view(shape.required@),
                    given_text(crate::k8s_model::pairs_view(inputs@), p.key@),
                )));
            },
            None => {
                assert(fields_view(fields@) =~= Seq::<SchemaFieldView>::empty());
            },
        }
        SchemaDialog {
            fields,
            focus: 0,
            scroll_offset: 0,
            base_schema_json,
            dsl,
            is_hydrating: false,
            hydration_status: owned("Ready"),
            global_errors: Vec::new(),
        }
    }

    /// Moves the focus to the next field, wrapping to the first.
    pub fn next_field(&mut self)
        ensures
            old(self).fields@.len() == 0 ==> *final(self) == *old(self),
            old(self).fields@.len() > 0 ==> *final(self) == (SchemaDialog {
                focus: ((old(self).focus + 1) % (old(self).fields@.len() as int)) as usize,
                ..*old(self)
            }),
    {
        let n = self.fields.len();
        if n > 0 {
            let f = self.focus;
            proof {
                assert((f + 1) % (n as int) == ((f % n) + 1) % (n as int)) by (nonlinear_arith)
                    requires n > 0;
            }
            self.focus = (f % n + 1) % n;
        }
    }

    /// Moves the focus to the previous field, wrapping to the last.
    pub fn prev_field(&mut self)
        ensures
            old(self).fields@.len() == 0 ==> *final(self) == *old(self),
            old(self).fields@.len() > 0 ==> *final(self) == (SchemaDialog {
                focus: if old(self).focus == 0 { (old(self).fields@.len() - 1) as usize } else { (old(self).focus - 1) as usize },
                ..*old(self)
            }),
    {
        let n = self.fields.len();
        if n > 0 {
            if self.focus == 0 {
                self.focus = n - 1;
            } else {
                self.focus = self.focus - 1;
            }
        }
    }

    /// Highlights the next option of the focused drop-down field (wrapping; the first when
    /// none is) and puts it in the field.
    pub fn handle_dropdown_down(&mut self)
        ensures
            ({
                let applies = old(self).focus < old(self).fields@.len()
                    && old(self).fields@[old(self).focus as int].is_enum
                    && old(self).fields@[old(self).focus as int].options@.len() > 0;
                &&& !applies ==> *final(self) == *old(self)
                &&& applies ==> {
                    let f = old(self).fields@[old(self).focus as int];
                    let i: usize = match f.selected_option {
                        Some(s) => if s + 1 >= f.options@.len() { 0 } else { (s + 1) as usize },
                        None => 0,
                    };
                    &&& fields_view(final(self).fields@) == fields_view(old(self).fields@).update(
                        old(self).focus as int,
                        SchemaFieldView { selected_option: Some(i), input: f.options@[i as int]@, ..f@ },
                    )
                    &&& *final(self) == (SchemaDialog { fields: final(self).fields, ..*old(self) })
                }
            }),
    {
        let k = self.focus;
        if k < self.fields.len() && self.fields[k].is_enum && self.fields[k].options.len() > 0 {
            let n = self.fields[k].options.len();
            let i: usize = match self.fields[k].selected_option {
                Some(s) => if s >= n - 1 { 0 } else { s + 1 },
                None => 0,
            };
            let text = self.fields[k].options[i].clone();
            let ghost before = fields_view(self.fields@);
            self.fields[k].selected_option = Some(i);
            self.fields[k].input = text;
            assert(fields_view(self.fields@) =~= before.update(
                k as int,
                SchemaFieldView { selected_option: Some(i), input: old(self).fields@[k as int].options@[i as int]@, ..before[k as int] },
            ));
        }
    }

    /// Highlights the previous option of the focused drop-down field (wrapping; the last when
    /// none is) and puts it in the field.
    pub fn handle_dropdown_up(&mut self)
        requires
            old(self).focus < old(self).fields@.len() ==> (old(self).fields@[old(self).focus as int].selected_option matches Some(s)
                ==> s <= old(self).fields@[old(self).focus as int].options@.len()),
        ensures
            ({
                let applies = old(self).focus < old(self).fields@.len()
                    && old(self).fields@[old(self).focus as int].is_enum
                    && old(self).fields@[old(self).focus as int].options@.len() > 0;
                &&& !applies ==> *final(self) == *old(self)
                &&& applies ==> {
                    let f = old(self).fields@[old(self).focus as int];
                    let n = f.options@.len();
                    let i: usize = match f.selected_option {
                        Some(s) => if s == 0 { (n - 1) as usize } else { (s - 1) as usize },
                        None => (n - 1) as usize,
                    };
                    &&& fields_view(final(self).fields@) == fields_view(old(self).fields@).update(
                        old(self).focus as int,
                        SchemaFieldView { selected_option: Some(i), input: f.options@[i as int]@, ..f@ },
                    )
                    &&& *final(self) == (SchemaDialog { fields: final(self).fields, ..*old(self) })
                }
            }),
    {
        let k = self.focus;
        if k < self.fields.len() && self.fields[k].is_enum && self.fields[k].options.len() > 0 {
            let n = self.fields[k].options.len();
            let i: usize = match self.fields[k].selected_option {
                Some(s) => if s == 0 { n - 1 } else { s - 1 },
                None => n - 1,
            };
            let text = self.fields[k].options[i].clone();
            let ghost before = fields_view(self.fields@);
            self.fields[k].selected_option = Some(i);
            self.fields[k].input = text;
            assert(fields_view(self.fields@) =~= before.update(
                k as int,
                SchemaFieldView { selected_option: Some(i), input: old(self).fields@[k as int].options@[i as int]@, ..before[k as int] },
            ));
        }
    }

    /// The inputs the dialog hands on: each field with text, by name and in field order, its
    /// text read for the field's type.
    pub fn get_inputs(&self) -> (r: Vec<(String, InputValue)>)
        ensures
            entries_view(r@) == inputs_of(fields_view(self.fields@)),
    {
        let mut r: Vec<(String, InputValue)> = Vec::new();
        let mut i: usize = 0;
        let ghost fv = fields_view(self.fields@);
        while i < self.fields.len()
            invariant
                i <= self.fields@.len(),
                fv == fields_view(self.fields@),
                entries_view(r@) == inputs_of(fv.take(i as int)),
            decreases self.fields@.len() - i,
        {
            assert(fv.take(i + 1).drop_last() =~= fv.take(i as int));
            assert(fv.take(i + 1).last() == self.fields@[i as int]@);
            let f = &self.fields[i];
            if f.input.unicode_len() > 0 {
                let v = parse_input(&f.schema_type, &f.input);
                let ghost before = entries_view(r@);
                r.push((f.name.clone(), v));
                assert(entries_view(r@) =~= before.push((f.name@, input_value(f.schema_type@, f.input@))));
            }
            i = i + 1;
        }
        assert(fv.take(i as int) =~= fv);
        r
    }
}

/// Reads a field's text for its schema type.
fn parse_input(schema_type: &String, text: &String) -> (v: InputValue)
    ensures
        v@ == input_value(schema_type@, text@),
{
    if *schema_type == owned("integer") || *schema_type == owned("number") {
        match crate::text::parse_int_in(text.as_str(), i64::MIN, i64::MAX) {
            Some(n) => InputValue::Int(n),
            None => InputValue::Text(text.clone()),
        }
    } else if *schema_type == owned("boolean") {
        if *text == owned("true") {
            InputValue::Bool(true)
        } else if *text == owned("false") {
            InputValue::Bool(false)
        } else {
            InputValue::Text(text.clone())
        }
    } else {
        InputValue::Text(text.clone())
    }
}

/// The keys of the properties.
pub open spec fn property_keys(ps: Seq<SchemaProperty>) -> Seq<Seq<char>> {
    ps.map_values(|p: SchemaProperty| p.key@)
}

/// The fields whose names are among `keys`, in order.
pub open spec fn retained(fields: Seq<SchemaFieldView>, keys: Seq<Seq<char>>) -> Seq<SchemaFieldView>
    decreases fields.len(),
{
    if fields.len() == 0 {
        Seq::empty()
    } else {
        (if keys.contains(fields[0].name) { seq![fields[0]] } else { Seq::empty() })
            + retained(fields.drop_first(), keys)
    }
}

/// The first field at or after `i` named `key`.
pub open spec fn find_field_from(pool: Seq<SchemaFieldView>, key: Seq<char>, i: int) -> Option<int>
    decreases pool.len() - i,
{
    if i < 0 || i >= pool.len() {
        None
    } else if pool[i].name == key {
        Some(i)
    } else {
        find_field_from(pool, key, i + 1)
    }
}

pub proof fn lemma_find_field_from(pool: Seq<SchemaFieldView>, key: Seq<char>, i: int)
    requires
        0 <= i,
    ensures
        match find_field_from(pool, key, i) {
            Some(p) => i <= p < pool.len() && pool[p].name == key,
            None => true,
        },
    decreases pool.len() - i,
{
    if i < pool.len() && pool[i].name != key {
        lemma_find_field_from(pool, key, i + 1);
    }
}

/// A field kept for property `p`: required as the schema now says, and with the property's
/// options when it has `enum`.
pub open spec fn refreshed(f: SchemaFieldView, p: SchemaProperty, required: Seq<Seq<char>>) -> SchemaFieldView {
    SchemaFieldView {
        required: required.contains(p.key@),
        is_enum: if p.enum_options is Some { true } else { f.is_enum },
        options: match p.enum_options { Some(o) => strs_view(o@), None => f.options },
        ..f
    }
}

/// The fields for the properties, in their order: the first remaining field with the key,
/// refreshed and taken out of the pool, or a new field from the property.
pub open spec fn hydrate(pool: Seq<SchemaFieldView>, ps: Seq<SchemaProperty>, required: Seq<Seq<char>>) -> Seq<SchemaFieldView>
    decreases ps.len(),
{
    if ps.len() == 0 {
        Seq::empty()
    } else {
        let p = ps[0];
        match find_field_from(pool, p.key@, 0) {
            Some(i) => seq![refreshed(pool[i], p, required)] + hydrate(pool.remove(i), ps.drop_first(), required),
            None => seq![field_from(p, required, None)] + hydrate(pool, ps.drop_first(), required),
        }
    }
}

/// The focus kept inside `n` fields.
pub open spec fn kept_focus(focus: usize, n: nat) -> usize {
    if focus >= n && n > 0 { (n - 1) as usize } else if n == 0 { 0 } else { focus }
}

fn has_key(ps: &Vec<SchemaProperty>, name: &String) -> (r: bool)
    ensures
        r == property_keys(ps@).contains(name@),
{
    let mut i: usize = 0;
    while i < ps.len()
        invariant
            i <= ps@.len(),
            forall|j: int| 0 <= j < i ==> ps@[j].key@ != name@,
        decreases ps@.len() - i,
    {
        if ps[i].key == *name {
            assert(property_keys(ps@)[i as int] == name@);
            return true;
        }
        i = i + 1;
    }
    assert forall|j: int| 0 <= j < property_keys(ps@).len() implies property_keys(ps@)[j] != name@ by {
        assert(property_keys(ps@)[j] == ps@[j].key@);
    }
    false
}

fn find_field(pool: &Vec<SchemaField>, key: &String) -> (r: Option<usize>)
    ensures
        match r {
            Some(p) => find_field_from(fields_view(pool@), key@, 0) == Some(p as int) && p < pool@.len(),
            None => find_field_from(fields_view(pool@), key@, 0) is None,
        },
{
    let ghost fv = fields_view(pool@);
    let mut i: usize = 0;
    while i < pool.len()
        invariant
            i <= pool@.len(),
            fv == fields_view(pool@),
            find_field_from(fv, key@, 0) == find_field_from(fv, key@, i as int),
        decreases pool@.len() - i,
    {
        assert(fv[i as int] == pool@[i as int]@);
        if pool[i].name == *key {
            return Some(i);
        }
        i = i + 1;
    }
    None
}

impl SchemaDialog {
    /// Takes in a schema computed from the current inputs: fields whose names the schema no
    /// longer has go, the focus and scroll are kept inside what remains, and the fields become
    /// one per property as `hydrate` says; the status and errors are the given ones.
    pub fn apply_hydrated_schema(&mut self, shape: SchemaShape, errors: Vec<String>, status: String)
        ensures
            ({
                let keys = match shape.properties { Some(ps) => property_keys(ps@), None => Seq::empty() };
                let pool = retained(fields_view(old(self).fields@), keys);
                let focus = kept_focus(old(self).focus, pool.len());
                &&& fields_view(final(self).fields@) == match shape.properties {
                    Some(ps) => hydrate(pool, ps@, strs_view(shape.required@)),
                    None => pool,
                }
                &&& final(self).focus == focus
                &&& final(self).scroll_offset == if old(self).scroll_offset > focus { focus } else { old(self).scroll_offset }
                &&& final(self).hydration_status == status
                &&& final(self).global_errors == errors
                &&& !final(self).is_hydrating
                &&& final(self).base_schema_json == old(self).base_schema_json
                &&& final(self).dsl == old(self).dsl
            }),
    {
        self.hydration_status = status;
        self.global_errors = errors;
        let empty_props: Vec<SchemaProperty> = Vec::new();
        let ps: &Vec<SchemaProperty> = match &shape.properties {
            Some(p) => p,
            None => &empty_props,
        };
        let ghost keys = property_keys(ps@);
        assert(keys == match shape.properties { Some(ps) => property_keys(ps@), None => Seq::empty() }) by {
            if shape.properties is None {
                assert(property_keys(ps@) =~= Seq::<Seq<char>>::empty());
            }
        }
        let mut rest: Vec<SchemaField> = Vec::new();
        std::mem::swap(&mut rest, &mut self.fields);
        let ghost orig = fields_view(rest@);
        let mut kept: Vec<SchemaField> = Vec::new();
        while rest.len() > 0
            invariant
                fields_view(kept@) + retained(fields_view(rest@), keys) == retained(orig, keys),
                keys == property_keys(ps@),
            decreases rest@.len(),
        {
            let ghost before = fields_view(rest@);
            let f = rest.remove(0);
            assert(fields_view(rest@) =~= before.drop_first());
            assert(before[0] == f@);
            let keep = has_key(ps, &f.name);
            let ghost kv = fields_view(kept@);
            if keep {
                kept.push(f);
                assert(fields_view(kept@) =~= kv + seq![before[0]]);
            }
            assert(fields_view(kept@) + retained(fields_view(rest@), keys) =~= kv + retained(before, keys));
        }
        assert(fields_view(kept@) =~= retained(orig, keys));
        let n = kept.len();
        if self.focus >= n && n > 0 {
            self.focus = n - 1;
        } else if n == 0 {
            self.focus = 0;
        }
        if self.scroll_offset > self.focus {
            self.scroll_offset = self.focus;
        }
        match &shape.properties {
            Some(props) => {
                let ghost pool0 = fields_view(kept@);
                let ghost req = strs_view(shape.required@);
                let mut pool = kept;
                let mut out: Vec<SchemaField> = Vec::new();
                let mut i: usize = 0;
                assert(props@.skip(0) =~= props@);
                while i < props.len()
                    invariant
                        i <= props@.len(),
                        req == strs_view(shape.required@),
                        fields_view(out@) + hydrate(fields_view(pool@), props@.skip(i as int), req)
                            == hydrate(pool0, props@, req),
                    decreases props@.len() - i,
                {
                    let ghost pv = fields_view(pool@);
                    let ghost ov = fields_view(out@);
                    assert(props@.skip(i as int)[0] == props@[i as int]);
                    assert(props@.skip(i as int).drop_first() =~= props@.skip(i + 1));
                    let p = &props[i];
                    match find_field(&pool, &p.key) {
                        Some(j) => {
                            proof {
                                lemma_find_field_from(pv, p.key@, 0);
                            }
                            let mut f = pool.remove(j);
                            assert(fields_view(pool@) =~= pv.remove(j as int));
                            f.required = contains_string(&shape.required, &p.key);
                            match &p.enum_options {
                                Some(o) => {
                                    f.is_enum = true;
                                    f.options = clone_strings(o);
                                },
                                None => {},
                            }
                            assert(f@ == refreshed(pv[j as int], *p, req));
                            out.push(f);
                            assert(fields_view(out@) =~= ov + seq![refreshed(pv[j as int], *p, req)]);
                        },
                        None => {
                            let f = make_field(p, &shape.required, None);
                            out.push(f);
                            assert(fields_view(out@) =~= ov + seq![field_from(*p, req, None)]);
                        },
                    }
                    assert(fields_view(out@) + hydrate(fields_view(pool@), props@.skip(i + 1), req)
                        =~= ov + hydrate(pv, props@.skip(i as int), req));
                    i = i + 1;
                }
                assert(props@.skip(i as int) =~= Seq::<SchemaProperty>::empty());
                assert(fields_view(out@) =~= hydrate(pool0, props@, req));
                self.fields = out;
            },
            None => {
                self.fields = kept;
            },
        }
        self.is_hydrating = false;
    }
}

/// How the inputs should be ordered: field names, with `*` standing for every field the
/// list does not name.
pub struct InputView {
    pub ui_order: Vec<String>,
}

/// Whether the order names `name` (the wildcard names nothing).
pub open spec fn listed(order: Seq<Seq<char>>, name: Seq<char>) -> bool {
    name != "*"@ && order.contains(name)
}

/// The positions below `n` of the fields named `e`, in order.
pub open spec fn idx_named(names: Seq<Seq<char>>, e: Seq<char>, n: int) -> Seq<int>
    decreases n,
{
    if n <= 0 {
        Seq::empty()
    } else {
        idx_named(names, e, n - 1) + if names[n - 1] == e { seq![n - 1] } else { Seq::empty() }
    }
}

/// The positions below `n` of the fields the order does not name, in order.
pub open spec fn idx_unlisted(names: Seq<Seq<char>>, order: Seq<Seq<char>>, n: int) -> Seq<int>
    decreases n,
{
    if n <= 0 {
        Seq::empty()
    } else {
        idx_unlisted(names, order, n - 1) + if !listed(order, names[n - 1]) { seq![n - 1] } else { Seq::empty() }
    }
}

/// The positions the first `k` entries of the order place: for a name met the first time,
/// the fields with that name; for the first wildcard, the fields the order does not name.
pub open spec fn placed(names: Seq<Seq<char>>, order: Seq<Seq<char>>, k: int) -> Seq<int>
    decreases k,
{
    if k <= 0 {
        Seq::empty()
    } else {
        let e = order[k - 1];
        let prev = order.take(k - 1);
        placed(names, order, k - 1) + if e == "*"@ {
            if prev.contains("*"@) { Seq::empty() } else { idx_unlisted(names, order, names.len() as int) }
        } else if prev.contains(e) {
            Seq::empty()
        } else {
            idx_named(names, e, names.len() as int)
        }
    }
}

/// The positions in their new order: as the order places them, then, when the order has no
/// wildcard, the fields it does not name.
pub open spec fn sorted_positions(names: Seq<Seq<char>>, order: Seq<Seq<char>>) -> Seq<int> {
    placed(names, order, order.len() as int) + if order.contains("*"@) {
        Seq::empty()
    } else {
        idx_unlisted(names, order, names.len() as int)
    }
}

pub open spec fn field_names(fields: Seq<SchemaField>) -> Seq<Seq<char>> {
    fields.map_values(|f: SchemaField| f.name@)
}

pub proof fn lemma_idx_named_bounds(names: Seq<Seq<char>>, e: Seq<char>, n: int)
    requires
        0 <= n <= names.len(),
    ensures
        forall|j: int| 0 <= j < idx_named(names, e, n).len() ==> 0 <= #[trigger] idx_named(names, e, n)[j] < n,
    decreases n,
{
    if n > 0 {
        lemma_idx_named_bounds(names, e, n - 1);
        let a = idx_named(names, e, n - 1);
        let b = idx_named(names, e, n);
        assert forall|j: int| 0 <= j < b.len() implies 0 <= #[trigger] b[j] < n by {
            if j < a.len() {
                assert(b[j] == a[j]);
            }
        }
    }
}

pub proof fn lemma_idx_unlisted_bounds(names: Seq<Seq<char>>, order: Seq<Seq<char>>, n: int)
    requires
        0 <= n <= names.len(),
    ensures
        forall|j: int| 0 <= j < idx_unlisted(names, order, n).len() ==> 0 <= #[trigger] idx_unlisted(names, order, n)[j] < n,
    decreases n,
{
    if n > 0 {
        lemma_idx_unlisted_bounds(names, order, n - 1);
        let a = idx_unlisted(names, order, n - 1);
        let b = idx_unlisted(names, order, n);
        assert forall|j: int| 0 <= j < b.len() implies 0 <= #[trigger] b[j] < n by {
            if j < a.len() {
                assert(b[j] == a[j]);
            }
        }
    }
}

fn contains_prefix(order: &Vec<String>, k: usize, e: &String) -> (r: bool)
    requires
        k <= order@.len(),
    ensures
        r == strs_view(order@).take(k as int).contains(e@),
{
    let mut i: usize = 0;
    while i < k
        invariant
            i <= k,
            k <= order@.len(),
            forall|j: int| 0 <= j < i ==> order@[j]@ != e@,
        decreases k - i,
    {
        if order[i] == *e {
            assert(strs_view(order@).take(k as int)[i as int] == e@);
            return true;
        }
        i = i + 1;
    }
    assert forall|j: int| 0 <= j < strs_view(order@).take(k as int).len()
        implies strs_view(order@).take(k as int)[j] != e@ by {
        assert(strs_view(order@).take(k as int)[j] == order@[j]@);
    }
    false
}

fn is_listed(order: &Vec<String>, name: &String) -> (r: bool)
    ensures
        r == listed(strs_view(order@), name@),
{
    proof {
        reveal_strlit("*");
    }
    if *name == owned("*") {
        return false;
    }
    let n = order.len();
    let r = contains_prefix(order, n, name);
    assert(strs_view(order@).take(n as int) =~= strs_view(order@));
    r
}

fn positions_named(fields: &Vec<SchemaField>, e: &String, out: &mut Vec<usize>)
    ensures
        final(out)@.map_values(|x: usize| x as int) == old(out)@.map_values(|x: usize| x as int)
            + idx_named(field_names(fields@), e@, fields@.len() as int),
{
    let ghost names = field_names(fields@);
    let ghost base = out@.map_values(|x: usize| x as int);
    let mut i: usize = 0;
    while i < fields.len()
        invariant
            i <= fields@.len(),
            names == field_names(fields@),
            out@.map_values(|x: usize| x as int) == base + idx_named(names, e@, i as int),
        decreases fields@.len() - i,
    {
        let ghost before = out@.map_values(|x: usize| x as int);
        if fields[i].name == *e {
            out.push(i);
        }
        assert(names[i as int] == fields@[i as int].name@);
        assert(out@.map_values(|x: usize| x as int) =~= before + if names[i as int] == e@ { seq![i as int] } else { Seq::empty() });
        i = i + 1;
    }
}

fn positions_unlisted(fields: &Vec<SchemaField>, order: &Vec<String>, out: &mut Vec<usize>)
    ensures
        final(out)@.map_values(|x: usize| x as int) == old(out)@.map_values(|x: usize| x as int)
            + idx_unlisted(field_names(fields@), strs_view(order@), fields@.len() as int),
{
    let ghost names = field_names(fields@);
    let ghost base = out@.map_values(|x: usize| x as int);
    let mut i: usize = 0;
    while i < fields.len()
        invariant
            i <= fields@.len(),
            names == field_names(fields@),
            out@.map_values(|x: usize| x as int) == base + idx_unlisted(names, strs_view(order@), i as int),
        decreases fields@.len() - i,
    {
        let ghost before = out@.map_values(|x: usize| x as int);
        if !is_listed(order, &fields[i].name) {
            out.push(i);
        }
        assert(names[i as int] == fields@[i as int].name@);
        assert(out@.map_values(|x: usize| x as int) =~= before
            + if !listed(strs_view(order@), names[i as int]) { seq![i as int] } else { Seq::empty() });
        i = i + 1;
    }
}

/// Puts the fields in the order the inputs' view asks for, as `sorted_positions` says; no
/// view leaves them as they are.
pub fn sort_fields(fields: &mut Vec<SchemaField>, inputs_view: &Option<InputView>)
    ensures
        match inputs_view {
            None => *final(fields) == *old(fields),
            Some(v) => fields_view(final(fields)@) == sorted_positions(field_names(old(fields)@), strs_view(v.ui_order@))
                .map_values(|i: int| fields_view(old(fields)@)[i]),
        },
{
    let order = match inputs_view {
        Some(v) => &v.ui_order,
        None => {
            return;
        },
    };
    let ghost names = field_names(fields@);
    let ghost ov = strs_view(order@);
    let mut pos: Vec<usize> = Vec::new();
    let mut k: usize = 0;
    proof {
        reveal_strlit("*");
    }
    while k < order.len()
        invariant
            k <= order@.len(),
            names == field_names(fields@),
            ov == strs_view(order@),
            pos@.map_values(|x: usize| x as int) == placed(names, ov, k as int),
        decreases order@.len() - k,
    {
        let ghost before = pos@.map_values(|x: usize| x as int);
        assert(ov.take(k as int) =~= strs_view(order@).take(k as int));
        let e = &order[k];
        assert(ov[k as int] == e@);
        let star = owned("*");
        if *e == star {
            if !contains_prefix(order, k, &star) {
                positions_unlisted(fields, order, &mut pos);
            }
        } else if !contains_prefix(order, k, e) {
            positions_named(fields, e, &mut pos);
        }
        assert(pos@.map_values(|x: usize| x as int) =~= placed(names, ov, k + 1));
        k = k + 1;
    }
    let n = order.len();
    let star = owned("*");
    if !contains_prefix(order, n, &star) {
        positions_unlisted(fields, order, &mut pos);
    }
    assert(ov.take(n as int) =~= ov);
    let ghost sp = sorted_positions(names, ov);
    assert(pos@.map_values(|x: usize| x as int) =~= sp);
    proof {
        lemma_placed_bounds(names, ov, ov.len() as int);
        lemma_idx_unlisted_bounds(names, ov, names.len() as int);
        assert forall|j: int| 0 <= j < sp.len() implies 0 <= #[trigger] sp[j] < names.len() by {
            let pl = placed(names, ov, ov.len() as int);
            if j < pl.len() {
                assert(sp[j] == pl[j]);
            } else {
                assert(sp[j] == idx_unlisted(names, ov, names.len() as int)[j - pl.len()]);
            }
        }
    }
    let ghost fv = fields_view(fields@);
    let mut out: Vec<SchemaField> = Vec::new();
    let mut i: usize = 0;
    while i < pos.len()
        invariant
            i <= pos@.len(),
            fv == fields_view(fields@),
            names.len() == fields@.len(),
            sp == pos@.map_values(|x: usize| x as int),
            forall|j: int| 0 <= j < sp.len() ==> 0 <= #[trigger] sp[j] < names.len(),
            fields_view(out@) == sp.take(i as int).map_values(|x: int| fv[x]),
        decreases pos@.len() - i,
    {
        let p = pos[i];
        assert(sp[i as int] == p as int);
        let f = fields[p].duplicate_field();
        assert(fv[p as int] == f@);
        let ghost before = fields_view(out@);
        assert(before =~= sp.take(i as int).map_values(|x: int| fv[x]));
        let ghost fview = f@;
        out.push(f);
        assert(fields_view(out@) =~= before.push(fview));
        assert(sp.take(i + 1) =~= sp.take(i as int).push(sp[i as int]));
        assert(sp.take(i + 1).map_values(|x: int| fv[x]) =~= sp.take(i as int).map_values(|x: int| fv[x]).push(fv[sp[i as int]]));
        assert(fields_view(out@) =~= sp.take(i + 1).map_values(|x: int| fv[x]));
        i = i + 1;
    }
    assert(sp.take(i as int) =~= sp);
    *fields = out;
}

pub proof fn lemma_placed_bounds(names: Seq<Seq<char>>, order: Seq<Seq<char>>, k: int)
    requires
        0 <= k <= order.len(),
    ensures
        forall|j: int| 0 <= j < placed(names, order, k).len() ==> 0 <= #[trigger] placed(names, order, k)[j] < names.len(),
    decreases k,
{
    if k > 0 {
        lemma_placed_bounds(names, order, k - 1);
        lemma_idx_named_bounds(names, order[k - 1], names.len() as int);
        lemma_idx_unlisted_bounds(names, order, names.len() as int);
        let a = placed(names, order, k - 1);
        let b = placed(names, order, k);
        assert forall|j: int| 0 <= j < b.len() implies 0 <= #[trigger] b[j] < names.len() by {
            if j < a.len() {
                assert(b[j] == a[j]);
            }
        }
    }
}

impl SchemaField {
    /// A copy of the field.
    pub fn duplicate_field(&self) -> (r: SchemaField)
        ensures
            r@ == self@,
    {
        SchemaField {
            name: self.name.clone(),
            description: self.description.clone(),
            required: self.required,
            input: self.input.clone(),
            options: clone_strings(&self.options),
            error: clone_opt_string(&self.error),
            is_enum: self.is_enum,
            schema_type: self.schema_type.clone(),
            selected_option: self.selected_option,
        }
    }
}

/// After hydration the fields are exactly the schema's properties, in their order.
pub proof fn lemma_hydrate_names(pool: Seq<SchemaFieldView>, ps: Seq<SchemaProperty>, required: Seq<Seq<char>>)
    ensures
        hydrate(pool, ps, required).len() == ps.len(),
        forall|j: int| 0 <= j < ps.len() ==> #[trigger] hydrate(pool, ps, required)[j].name == ps[j].key@,
    decreases ps.len(),
{
    if ps.len() > 0 {
        let p = ps[0];
        lemma_find_field_from(pool, p.key@, 0);
        match find_field_from(pool, p.key@, 0) {
            Some(i) => {
                lemma_hydrate_names(pool.remove(i), ps.drop_first(), required);
            },
            None => {
                lemma_hydrate_names(pool, ps.drop_first(), required);
            },
        }
        let h = hydrate(pool, ps, required);
        assert forall|j: int| 0 <= j < ps.len() implies #[trigger] h[j].name == ps[j].key@ by {
            if j > 0 {
                assert(ps.drop_first()[j - 1] == ps[j]);
            }
        }
    }
}

/// What a key in the input dialog leads to.
#[derive(PartialEq, Eq, Structural, Clone, Copy, Debug)]
pub enum SchemaKeyOutcome {
    /// The dialog is to be dropped.
    Closed,
    /// The inputs are to be checked against the server once more and, when complete, the
    /// workflow submitted.
    Submit,
    /// The focus or a drop-down moved: the schema is to be hydrated with the inputs.
    Hydrate,
    /// The key goes to the focused field's text (hydrate when it changed it).
    Edit(usize),
    /// The dialog has no fields.
    Nothing,
}

impl SchemaDialog {
    /// A key in the input dialog: Esc drops it, Enter submits it, Tab and Shift+Tab move the
    /// focus, Up and Down move through the focused drop-down (each of these four asks for a
    /// hydration), and other keys go to the focused field.
    pub fn handle_key(&mut self, key: KeyPress) -> (r: SchemaKeyOutcome)
        requires
            key.key == Key::Up && old(self).focus < old(self).fields@.len() ==> (old(self).fields@[old(self).focus as int].selected_option matches Some(s) ==> s <= old(self).fields@[old(self).focus as int].options@.len()),
        ensures
            key.key == Key::Esc ==> r == SchemaKeyOutcome::Closed && *final(self) == *old(self),
            key.key == Key::Enter ==> r == SchemaKeyOutcome::Submit && *final(self) == *old(self),
            key.key == Key::Tab ==> r == SchemaKeyOutcome::Hydrate && (old(self).fields@.len() == 0 ==> *final(self)
                == *old(self)) && (old(self).fields@.len() > 0 ==> *final(self) == (SchemaDialog {
                focus: ((old(self).focus + 1) % (old(self).fields@.len() as int)) as usize,
                ..*old(self)
            })),
            key.key == Key::BackTab ==> r == SchemaKeyOutcome::Hydrate && (old(self).fields@.len() == 0 ==> *final(self) == *old(self)) && (old(self).fields@.len() > 0 ==> *final(self) == (SchemaDialog {
                focus: if old(self).focus == 0 {
                    (old(self).fields@.len() - 1) as usize
                } else {
                    (old(self).focus - 1) as usize
                },
                ..*old(self)
            })),
            key.key == Key::Up || key.key == Key::Down ==> r == SchemaKeyOutcome::Hydrate
                && final(self).focus == old(self).focus,
            !(key.key == Key::Esc || key.key == Key::Enter || key.key == Key::Tab || key.key == Key::BackTab
                || key.key == Key::Up || key.key == Key::Down) ==> *final(self) == *old(self) && r == if old(self).fields@.len() > 0 {
                SchemaKeyOutcome::Edit(old(self).focus)
            } else {
                SchemaKeyOutcome::Nothing
            },
    {
        let k = key.key;
        if k == Key::Esc {
            SchemaKeyOutcome::Closed
        } else if k == Key::Enter {
            SchemaKeyOutcome::Submit
        } else if k == Key::Tab {
            self.next_field();
            SchemaKeyOutcome::Hydrate
        } else if k == Key::BackTab {
            self.prev_field();
            SchemaKeyOutcome::Hydrate
        } else if k == Key::Up {
            self.handle_dropdown_up();
            SchemaKeyOutcome::Hydrate
        } else if k == Key::Down {
            self.handle_dropdown_down();
            SchemaKeyOutcome::Hydrate
        } else if self.fields.len() > 0 {
            SchemaKeyOutcome::Edit(self.focus)
        } else {
            SchemaKeyOutcome::Nothing
        }
    }

    /// A hydration starts: the dialog says it is updating, and hands back the inputs to send.
    pub fn start_hydration(&mut self) -> (r: Vec<(String, InputValue)>)
        ensures
            final(self).hydration_status@ == "Updating..."@,
            final(self).is_hydrating,
            *final(self) == (SchemaDialog {
                hydration_status: final(self).hydration_status,
                is_hydrating: true,
                ..*old(self)
            }),
            entries_view(r@) == inputs_of(fields_view(old(self).fields@)),
    {
        let r = self.get_inputs();
        self.hydration_status = owned("Updating...");
        self.is_hydrating = true;
        r
    }

    /// A hydration failed: the dialog stops waiting for it.
    pub fn hydration_failed(&mut self)
        ensures
            *final(self) == (SchemaDialog { is_hydrating: false, ..*old(self) }),
    {
        self.is_hydrating = false;
    }
}

} // verus!
