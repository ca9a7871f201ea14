use vstd::prelude::*;

use crate::parse::parse_json;
use crate::parse::spec_parse;
use crate::parse::ParseError;
use crate::value::member_keys;
use crate::value::spec_value_type;
use crate::value::top_keys;
use crate::value::top_members;
use crate::value::value_to_type;
use crate::value::JsonValue;

verus! {

/// One top-level field's inferred type.
#[derive(Debug)]
pub struct JsonSchemaProperty {
    pub type_tag: String,
}

/// The inferred schema document.
///
/// `properties` holds one entry per top-level key of the input object, each
/// key paired with its inferred type; `required` lists the top-level keys
/// whose example value is not null.  `schema` is the fixed draft identifier,
/// `id` is a placeholder kept empty, and `title` and `description` are
/// metadata kept absent.
#[derive(Debug)]
pub struct JsonSchema {
    pub schema: String,
    pub id: String,
    pub title: Option<String>,
    pub description: Option<String>,
    pub properties: Vec<(String, JsonSchemaProperty)>,
    pub required: Vec<String>,
}

/// The fixed draft identifier every built schema carries.
pub open spec fn schema_uri() -> Seq<char> {
    "https://json-schema.org/draft/2020-12/schema"@
}

/// The (key, type tag) pairs inferred from a member list, in member order.
pub open spec fn member_properties(ms: Seq<(String, JsonValue)>) -> Seq<(Seq<char>, Seq<char>)>
    decreases ms.len(),
{
    if ms.len() == 0 {
        Seq::empty()
    } else {
        member_properties(ms.drop_last()).push((ms.last().0@, spec_value_type(ms.last().1)))
    }
}

/// The keys of the members whose value is not null, in member order.
pub open spec fn member_required(ms: Seq<(String, JsonValue)>) -> Seq<Seq<char>>
    decreases ms.len(),
{
    if ms.len() == 0 {
        Seq::empty()
    } else if ms.last().1 is Null {
        member_required(ms.drop_last())
    } else {
        member_required(ms.drop_last()).push(ms.last().0@)
    }
}

/// The properties inferred for a value: one entry per top-level member of an
/// object root, none for any other root.
pub open spec fn spec_properties(v: JsonValue) -> Seq<(Seq<char>, Seq<char>)> {
    member_properties(top_members(v))
}

/// The required keys inferred for a value: the top-level keys of an object
/// root whose member value is not null, none for any other root.
pub open spec fn spec_required(v: JsonValue) -> Seq<Seq<char>> {
    member_required(top_members(v))
}

/// The mathematical reading of a built property list.
pub open spec fn properties_view(props: Seq<(String, JsonSchemaProperty)>) -> Seq<
    (Seq<char>, Seq<char>),
> {
    props.map_values(|p: (String, JsonSchemaProperty)| (p.0@, p.1.type_tag@))
}

/// The mathematical reading of a list of field names.
pub open spec fn names_view(names: Seq<String>) -> Seq<Seq<char>> {
    names.map_values(|s: String| s@)
}

/// Everything `build_schema` promises of a schema built from the parsed
/// value `v`.
pub open spec fn is_schema_of(s: JsonSchema, v: JsonValue) -> bool {
    &&& s.schema@ == schema_uri()
    &&& s.id@ == Seq::<char>::empty()
    &&& s.title is None
    &&& s.description is None
    &&& properties_view(s.properties@) == spec_properties(v)
    &&& names_view(s.required@) == spec_required(v)
}

/// Infers a schema from one JSON text.
///
/// On well-formed input the result describes the parsed value exactly: the
/// properties are the top-level members in order, each with its inferred type
/// tag, and the required list holds the keys of the non-null members.  On
/// malformed input the parse error comes back unchanged and no schema is
/// produced.
pub fn build_schema(data: &str) -> (r: Result<JsonSchema, ParseError>)
    ensures
        spec_parse(data@) matches Ok(v) ==> r matches Ok(s) && is_schema_of(s, v),
        spec_parse(data@) matches Err(e) ==> r == Err::<JsonSchema, ParseError>(e),
{
    match parse_json(data) {
        Err(e) => Err(e),
        Ok(v) => {
            let ghost gv = v;
            let mut properties: Vec<(String, JsonSchemaProperty)> = Vec::new();
            let mut required: Vec<String> = Vec::new();
            match v {
                JsonValue::Object(members) => {
                    let mut i: usize = 0;
                    while i < members.len()
                        invariant
                            i <= members.len(),
                            members@ == top_members(gv),
                            properties_view(properties@) == member_properties(
                                members@.take(i as int),
                            ),
                            names_view(required@) == member_required(members@.take(i as int)),
                        decreases members.len() - i,
                    {
                        let ghost props0 = properties@;
                        let ghost req0 = required@;
                        let m = &members[i];
                        let key = m.0.clone();
                        let tag = value_to_type(&m.1);
                        if !m.1.is_null() {
                            required.push(key.clone());
                        }
                        properties.push((key, JsonSchemaProperty { type_tag: tag }));
                        proof {
                            let taken = members@.take(i + 1);
                            assert(taken.drop_last() =~= members@.take(i as int));
                            assert(taken.last() == members@[i as int]);
                            assert(properties_view(properties@) =~= properties_view(props0).push(
                                (members@[i as int].0@, spec_value_type(members@[i as int].1)),
                            ));
                            if !(members@[i as int].1 is Null) {
                                assert(names_view(required@) =~= names_view(req0).push(
                                    members@[i as int].0@,
                                ));
                            }
                        }
                        i += 1;
                    }
                    proof {
                        assert(members@.take(members@.len() as int) =~= members@);
                    }
                },
                _ => {
                    proof {
                        assert(properties_view(properties@) =~= Seq::<
                            (Seq<char>, Seq<char>),
                        >::empty());
                        assert(names_view(required@) =~= Seq::<Seq<char>>::empty());
                        assert(top_members(gv) =~= Seq::<(String, JsonValue)>::empty());
                    }
                },
            }
            Ok(
                JsonSchema {
                    schema: "https://json-schema.org/draft/2020-12/schema".to_owned(),
                    id: String::new(),
                    title: None,
                    description: None,
                    properties,
                    required,
                },
            )
        },
    }
}

impl JsonSchema {
    /// Looks up the inferred property for a top-level field name: some entry
    /// with that name where one exists, and nothing exactly when no property
    /// carries the name.
    pub fn property_type(&self, name: &String) -> (r: Option<&JsonSchemaProperty>)
        ensures
            match r {
                Some(p) => exists|j: int|
                    0 <= j < self.properties@.len() && (#[trigger] self.properties@[j]).0@ == name@
                        && self.properties@[j].1 == *p,
                None => forall|j: int|
                    0 <= j < self.properties@.len() ==> (#[trigger] self.properties@[j]).0@
                        != name@,
            },
    {
        let mut i: usize = 0;
        while i < self.properties.len()
            invariant
                i <= self.properties.len(),
                forall|j: int| 0 <= j < i ==> (#[trigger] self.properties@[j]).0@ != name@,
            decreases self.properties.len() - i,
        {
            if self.properties[i].0.eq(name) {
                return Some(&self.properties[i].1);
            }
            i += 1;
        }
        None
    }
}

/// The names of a property list, in entry order.
pub open spec fn property_names(ps: Seq<(Seq<char>, Seq<char>)>) -> Seq<Seq<char>> {
    ps.map_values(|p: (Seq<char>, Seq<char>)| p.0)
}

proof fn lemma_member_properties_keys(ms: Seq<(String, JsonValue)>)
    ensures
        property_names(member_properties(ms)) =~= member_keys(ms),
    decreases ms.len(),
{
    if ms.len() == 0 {
    } else {
        let dl = ms.drop_last();
        lemma_member_properties_keys(dl);
        let lhs = property_names(member_properties(ms));
        let rhs = member_keys(ms);
        assert forall|i: int| 0 <= i < lhs.len() implies lhs[i] == rhs[i] by {
            if i < ms.len() - 1 {
                assert(member_properties(ms)[i] == member_properties(dl)[i]);
                assert(property_names(member_properties(dl))[i] == member_keys(dl)[i]);
                assert(dl[i] == ms[i]);
            }
        }
    }
}

/// The inferred properties carry exactly the input's top-level keys: the same
/// names in the same order, hence the same set of names, with none added and
/// none left out.
pub proof fn lemma_property_names_exact(v: JsonValue)
    ensures
        property_names(spec_properties(v)) == top_keys(v),
        property_names(spec_properties(v)).to_set() == top_keys(v).to_set(),
{
    lemma_member_properties_keys(top_members(v));
}

/// Whether `k` names a top-level member of `v` whose value is not null.
pub open spec fn is_required_key(v: JsonValue, k: Seq<char>) -> bool {
    exists|i: int|
        0 <= i < top_members(v).len() && (#[trigger] top_members(v)[i]).0@ == k && !(top_members(
            v,
        )[i].1 is Null)
}

proof fn lemma_member_required_contains(ms: Seq<(String, JsonValue)>, k: Seq<char>)
    ensures
        member_required(ms).contains(k) <==> (exists|i: int|
            0 <= i < ms.len() && (#[trigger] ms[i]).0@ == k && !(ms[i].1 is Null)),
    decreases ms.len(),
{
    if ms.len() == 0 {
    } else {
        let dl = ms.drop_last();
        let last = ms.last();
        lemma_member_required_contains(dl, k);
        assert(forall|i: int| 0 <= i < dl.len() ==> dl[i] == ms[i]);
        if last.1 is Null {
            if exists|i: int| 0 <= i < ms.len() && (#[trigger] ms[i]).0@ == k && !(ms[i].1 is Null) {
                let i = choose|i: int|
                    0 <= i < ms.len() && (#[trigger] ms[i]).0@ == k && !(ms[i].1 is Null);
                assert(dl[i].0@ == k && !(dl[i].1 is Null));
            }
        } else {
            let pushed = member_required(dl).push(last.0@);
            assert(member_required(ms) == pushed);
            if pushed.contains(k) {
                let i = choose|i: int| 0 <= i < pushed.len() && pushed[i] == k;
                if i < member_required(dl).len() {
                    assert(member_required(dl)[i] == k);
                    assert(member_required(dl).contains(k));
                } else {
                    assert(k == last.0@);
                    assert((ms[ms.len() - 1]).0@ == k && !(ms[ms.len() - 1].1 is Null));
                }
            }
            if member_required(dl).contains(k) {
                let i = choose|i: int|
                    0 <= i < member_required(dl).len() && member_required(dl)[i] == k;
                assert(pushed[i] == k);
                assert(pushed.contains(k));
            }
            if k == last.0@ {
                assert(pushed[pushed.len() - 1] == k);
                assert(pushed.contains(k));
            }
        }
    }
}

/// The required list holds exactly the top-level keys whose value is not
/// null: a name is in it if and only if some top-level member carries that
/// name with a non-null value.
pub proof fn lemma_required_exact(v: JsonValue)
    ensures
        forall|k: Seq<char>| #[trigger] spec_required(v).contains(k) <==> is_required_key(v, k),
{
    assert forall|k: Seq<char>| #[trigger]
        spec_required(v).contains(k) <==> is_required_key(v, k) by {
        lemma_member_required_contains(top_members(v), k);
    }
}

proof fn lemma_member_required_no_duplicates(ms: Seq<(String, JsonValue)>)
    requires
        member_keys(ms).no_duplicates(),
    ensures
        member_required(ms).no_duplicates(),
    decreases ms.len(),
{
    if ms.len() == 0 {
    } else {
        let dl = ms.drop_last();
        let last = ms.last();
        assert forall|i: int, j: int|
            0 <= i < member_keys(dl).len() && 0 <= j < member_keys(dl).len() && i
                != j implies member_keys(dl)[i] != member_keys(dl)[j] by {
            assert(member_keys(dl)[i] == dl[i].0@ && dl[i] == ms[i]);
            assert(member_keys(dl)[j] == dl[j].0@ && dl[j] == ms[j]);
            assert(member_keys(ms)[i] != member_keys(ms)[j]);
        }
        lemma_member_required_no_duplicates(dl);
        if !(last.1 is Null) {
            let prev = member_required(dl);
            if prev.contains(last.0@) {
                lemma_member_required_contains(dl, last.0@);
                let i = choose|i: int|
                    0 <= i < dl.len() && (#[trigger] dl[i]).0@ == last.0@ && !(dl[i].1 is Null);
                assert(member_keys(ms)[i] == member_keys(ms)[ms.len() - 1]);
                assert(false);
            }
            let r = prev.push(last.0@);
            assert forall|i: int, j: int|
                0 <= i < r.len() && 0 <= j < r.len() && i != j implies r[i] != r[j] by {
                if i < prev.len() && j < prev.len() {
                    assert(r[i] == prev[i] && r[j] == prev[j]);
                } else if i < prev.len() {
                    assert(r[j] == last.0@);
                    if prev[i] == last.0@ {
                        assert(prev.contains(last.0@));
                    }
                } else {
                    assert(r[i] == last.0@);
                    if prev[j] == last.0@ {
                        assert(prev.contains(last.0@));
                    }
                }
            }
        }
    }
}

/// With distinct top-level keys, as a parsed object always presents them, the
/// required list repeats no name: together with `lemma_required_exact` it is
/// exactly the set of non-null top-level keys, each listed once.
pub proof fn lemma_required_no_duplicates(v: JsonValue)
    requires
        top_keys(v).no_duplicates(),
    ensures
        spec_required(v).no_duplicates(),
{
    lemma_member_required_no_duplicates(top_members(v));
}

} // verus!
