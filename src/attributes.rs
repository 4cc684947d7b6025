//! Reconciles the attributes asked for a topic with those it holds, against
//! an allow-list of the attributes that the broker knows.
//!
//! A requested key starts with `+` (add or change the attribute named by the
//! rest of the key) or `-` (delete it).
use vstd::prelude::*;

use crate::assoc::{
    assoc_view, has_key, keys_unique, lemma_dom, lemma_last_entry, lemma_push,
    lemma_remove, lemma_update,
};
use crate::topic_config::{attr_entries, attr_map, Attribute};

verus! {

/// An attribute that the broker knows: its name, whether an existing topic
/// may change it, and the values it may take.
pub struct AttributeRule {
    pub name: String,
    pub changeable: bool,
    pub allowed_values: Vec<String>,
}

pub struct AttributeRuleView {
    pub changeable: bool,
    pub allowed_values: Seq<Seq<char>>,
}

pub open spec fn rule_entries(s: Seq<AttributeRule>) -> Seq<(Seq<char>, AttributeRuleView)> {
    s.map_values(
        |r: AttributeRule|
            (r.name@, AttributeRuleView {
                changeable: r.changeable,
                allowed_values: r.allowed_values@.map_values(|v: String| v@),
            }),
    )
}

/// The allow-list as a map from attribute name to its rule.
pub open spec fn schema_map(s: Seq<AttributeRule>) -> Map<Seq<char>, AttributeRuleView> {
    assoc_view(rule_entries(s))
}

#[derive(Clone, Copy, Debug, PartialEq, Eq, Structural)]
pub enum AttributeError {
    /// A key starts with neither `+` nor `-`.
    WrongFormatKey,
    /// A key of a topic being created starts with `-`.
    OnlyAddWhileCreating,
    /// The allow-list has no attribute of that name.
    UnsupportedKey,
    /// Two keys name the same attribute.
    DuplicateKey,
    /// A key deletes an attribute that the topic does not hold.
    DeleteNonexistentKey,
    /// A key changes an attribute that an existing topic may not change.
    UnchangeableAttribute,
    /// A value is not one the attribute may take.
    InvalidValue,
}

pub open spec fn is_add_key(k: Seq<char>) -> bool {
    k.len() > 0 && k[0] == '+'
}

pub open spec fn is_delete_key(k: Seq<char>) -> bool {
    k.len() > 0 && k[0] == '-'
}

/// The attribute name that a requested key stands for.
pub open spec fn real_key(k: Seq<char>) -> Seq<char> {
    k.subrange(1, k.len() as int)
}

/// One requested entry is acceptable on its own.
pub open spec fn entry_ok(
    create: bool,
    schema: Map<Seq<char>, AttributeRuleView>,
    current: Map<Seq<char>, Seq<char>>,
    k: Seq<char>,
    v: Seq<char>,
) -> bool {
    &&& is_add_key(k) || is_delete_key(k)
    &&& create ==> is_add_key(k)
    &&& schema.contains_key(real_key(k))
    &&& is_add_key(k) ==> (create || schema[real_key(k)].changeable)
        && schema[real_key(k)].allowed_values.contains(v)
    &&& is_delete_key(k) ==> current.contains_key(real_key(k))
        && schema[real_key(k)].changeable
}

/// The request is acceptable: each entry is, and no two name the same attribute.
pub open spec fn request_ok(
    create: bool,
    schema: Map<Seq<char>, AttributeRuleView>,
    req: Seq<(Seq<char>, Seq<char>)>,
    current: Map<Seq<char>, Seq<char>>,
) -> bool {
    &&& forall|i: int| 0 <= i < req.len() ==> entry_ok(create, schema, current, req[i].0, req[i].1)
    &&& forall|i: int, j: int|
        0 <= i < j < req.len() ==> real_key(req[i].0) != real_key(req[j].0)
}

/// The attributes after the requested additions and deletions, in order.
pub open spec fn apply_request(
    current: Map<Seq<char>, Seq<char>>,
    req: Seq<(Seq<char>, Seq<char>)>,
) -> Map<Seq<char>, Seq<char>>
    decreases req.len(),
{
    if req.len() == 0 {
        current
    } else {
        let prev = apply_request(current, req.drop_last());
        let k = req.last().0;
        if is_add_key(k) {
            prev.insert(real_key(k), req.last().1)
        } else {
            prev.remove(real_key(k))
        }
    }
}

/// Splits a requested key into whether it adds, and the attribute it names.
fn split_key(k: &String) -> (r: Option<(bool, String)>)
    ensures
        r is None <==> !(is_add_key(k@) || is_delete_key(k@)),
        r matches Some(p) ==> p.0 == is_add_key(k@) && p.1@ == real_key(k@),
{
    let s = k.as_str();
    let n = s.unicode_len();
    if n == 0 {
        return None;
    }
    let c = s.get_char(0);
    if c != '+' && c != '-' {
        return None;
    }
    let rest = String::from_str(s.substring_char(1, n));
    Some((c == '+', rest))
}

/// The index of the rule for `name`: the last in the list with that name.
fn find_rule(all: &Vec<AttributeRule>, name: &String) -> (r: Option<usize>)
    ensures
        r is None <==> !schema_map(all@).contains_key(name@),
        r matches Some(i) ==> i < all@.len() && rule_entries(all@)[i as int].1 == schema_map(
            all@,
        )[name@],
{
    let ghost s = rule_entries(all@);
    let mut i: usize = all.len();
    while i > 0
        invariant
            i <= all@.len(),
            s == rule_entries(all@),
            forall|j: int| i <= j < all@.len() ==> s[j].0 != name@,
        decreases i,
    {
        i = i - 1;
        if all[i].name == *name {
            proof {
                lemma_last_entry(s, i as int);
            }
            return Some(i);
        }
    }
    proof {
        lemma_dom(s, name@);
    }
    None
}

fn contains_value(values: &Vec<String>, v: &String) -> (r: bool)
    ensures
        r == values@.map_values(|x: String| x@).contains(v@),
{
    let ghost vs = values@.map_values(|x: String| x@);
    let mut i: usize = 0;
    while i < values.len()
        invariant
            i <= values@.len(),
            vs == values@.map_values(|x: String| x@),
            forall|j: int| 0 <= j < i ==> vs[j] != v@,
        decreases values@.len() - i,
    {
        if values[i] == *v {
            assert(vs[i as int] == v@);
            return true;
        }
        i = i + 1;
    }
    false
}

fn find_attr(a: &Vec<Attribute>, name: &String) -> (r: Option<usize>)
    ensures
        r is None <==> !has_key(attr_entries(a@), name@),
        r matches Some(i) ==> i < a@.len() && a@[i as int].0@ == name@,
{
    let ghost s = attr_entries(a@);
    let mut i: usize = 0;
    while i < a.len()
        invariant
            i <= a@.len(),
            s == attr_entries(a@),
            forall|j: int| 0 <= j < i ==> s[j].0 != name@,
        decreases a@.len() - i,
    {
        if a[i].0 == *name {
            assert(s[i as int].0 == name@);
            return Some(i);
        }
        i = i + 1;
    }
    None
}

/// Sets `name` to `value` in a list with unique names.
fn set_attr(a: &mut Vec<Attribute>, name: String, value: String)
    requires
        keys_unique(attr_entries(old(a)@)),
    ensures
        keys_unique(attr_entries(final(a)@)),
        attr_map(final(a)@) == attr_map(old(a)@).insert(name@, value@),
{
    let ghost s = attr_entries(a@);
    let ghost e = (name@, value@);
    match find_attr(a, &name) {
        Some(i) => {
            a.set(i, (name, value));
            proof {
                lemma_update(s, i as int, e.1);
                assert(attr_entries(a@) =~= s.update(i as int, e));
            }
        },
        None => {
            a.push((name, value));
            proof {
                lemma_push(s, e.0, e.1);
                assert(attr_entries(a@) =~= s.push(e));
            }
        },
    }
}

/// Removes `name` from a list with unique names.
fn remove_attr(a: &mut Vec<Attribute>, name: &String)
    requires
        keys_unique(attr_entries(old(a)@)),
    ensures
        keys_unique(attr_entries(final(a)@)),
        attr_map(final(a)@) == attr_map(old(a)@).remove(name@),
{
    let ghost s = attr_entries(a@);
    match find_attr(a, name) {
        Some(i) => {
            a.remove(i);
            proof {
                lemma_remove(s, i as int);
                assert(attr_entries(a@) =~= s.remove(i as int));
            }
        },
        None => {
            proof {
                lemma_dom(s, name@);
            }
            assert(attr_map(a@).remove(name@) =~= attr_map(a@));
        },
    }
}

/// Copies a list of attributes into one with unique names and the same map.
fn unique_copy(a: &Vec<Attribute>) -> (r: Vec<Attribute>)
    ensures
        keys_unique(attr_entries(r@)),
        attr_map(r@) == attr_map(a@),
{
    let mut r: Vec<Attribute> = Vec::new();
    let mut i: usize = 0;
    assert(attr_entries(r@) =~= Seq::empty());
    assert(attr_entries(a@.subrange(0, 0)) =~= Seq::empty());
    while i < a.len()
        invariant
            i <= a@.len(),
            keys_unique(attr_entries(r@)),
            attr_map(r@) == attr_map(a@.subrange(0, i as int)),
        decreases a@.len() - i,
    {
        set_attr(&mut r, a[i].0.clone(), a[i].1.clone());
        assert(attr_entries(a@.subrange(0, i + 1)).drop_last() =~= attr_entries(
            a@.subrange(0, i as int),
        ));
        i = i + 1;
    }
    assert(a@.subrange(0, a@.len() as int) == a@);
    r
}

/// Reconciles `new_attributes`, keys prefixed by `+` or `-`, with
/// `current_attributes` against the allow-list `all`. `create` says whether
/// the topic is new: a new topic may only add attributes, and may set those
/// that an existing topic may not change.
pub fn alter_current_attributes(
    create: bool,
    all: &Vec<AttributeRule>,
    new_attributes: &Vec<Attribute>,
    current_attributes: &Vec<Attribute>,
) -> (r: Result<Vec<Attribute>, AttributeError>)
    ensures
        r is Ok <==> request_ok(
            create,
            schema_map(all@),
            attr_entries(new_attributes@),
            attr_map(current_attributes@),
        ),
        r matches Ok(out) ==> attr_map(out@) == apply_request(
            attr_map(current_attributes@),
            attr_entries(new_attributes@),
        ),
{
    let ghost schema = schema_map(all@);
    let ghost req = attr_entries(new_attributes@);
    let ghost cur = attr_map(current_attributes@);
    let mut out = unique_copy(current_attributes);
    let mut seen: Vec<String> = Vec::new();
    let mut i: usize = 0;
    assert(req.subrange(0, 0) =~= Seq::empty());
    while i < new_attributes.len()
        invariant
            i <= new_attributes@.len(),
            req == attr_entries(new_attributes@),
            schema == schema_map(all@),
            cur == attr_map(current_attributes@),
            keys_unique(attr_entries(out@)),
            request_ok(create, schema, req.subrange(0, i as int), cur),
            attr_map(out@) == apply_request(cur, req.subrange(0, i as int)),
            seen@.len() == i,
            forall|j: int| 0 <= j < i ==> seen@[j]@ == real_key(req[j].0),
        decreases new_attributes@.len() - i,
    {
        let ghost k = req[i as int].0;
        let ghost v = req[i as int].1;
        let (add, name) = match split_key(&new_attributes[i].0) {
            Some(p) => p,
            None => {
                assert(!entry_ok(create, schema, cur, k, v));
                return Err(AttributeError::WrongFormatKey);
            },
        };
        if create && !add {
            assert(!entry_ok(create, schema, cur, k, v));
            return Err(AttributeError::OnlyAddWhileCreating);
        }
        let idx = match find_rule(all, &name) {
            Some(idx) => idx,
            None => {
                assert(!entry_ok(create, schema, cur, k, v));
                return Err(AttributeError::UnsupportedKey);
            },
        };
        if contains_value(&seen, &name) {
            let ghost sv = seen@.map_values(|x: String| x@);
            let ghost j = choose|j: int| 0 <= j < sv.len() && sv[j] == name@;
            assert(real_key(req[j].0) == real_key(req[i as int].0));
            return Err(AttributeError::DuplicateKey);
        }
        let changeable = all[idx].changeable;
        if add {
            if !create && !changeable {
                assert(!entry_ok(create, schema, cur, k, v));
                return Err(AttributeError::UnchangeableAttribute);
            }
            if !contains_value(&all[idx].allowed_values, &new_attributes[i].1) {
                assert(!entry_ok(create, schema, cur, k, v));
                return Err(AttributeError::InvalidValue);
            }
        } else {
            let found = find_attr(current_attributes, &name);
            proof {
                lemma_dom(attr_entries(current_attributes@), name@);
            }
            if found.is_none() {
                assert(!entry_ok(create, schema, cur, k, v));
                return Err(AttributeError::DeleteNonexistentKey);
            }
            if !changeable {
                assert(!entry_ok(create, schema, cur, k, v));
                return Err(AttributeError::UnchangeableAttribute);
            }
        }
        assert(entry_ok(create, schema, cur, k, v));
        if add {
            set_attr(&mut out, name.clone(), new_attributes[i].1.clone());
        } else {
            remove_attr(&mut out, &name);
        }
        let ghost old_seen = seen@.map_values(|x: String| x@);
        assert(!old_seen.contains(name@));
        seen.push(name);
        proof {
            let p = req.subrange(0, i + 1);
            assert(p.drop_last() =~= req.subrange(0, i as int));
            assert(p.last() == req[i as int]);
            assert forall|a: int, b: int| 0 <= a < b < p.len() implies real_key(p[a].0) != real_key(
                p[b].0,
            ) by {
                if b < i {
                    assert(req.subrange(0, i as int)[a] == p[a]);
                    assert(req.subrange(0, i as int)[b] == p[b]);
                } else {
                    assert(old_seen[a] == real_key(p[a].0));
                    assert(real_key(p[b].0) == name@);
                }
            }
            assert forall|a: int| 0 <= a < p.len() implies entry_ok(create, schema, cur, p[a].0, p[a].1) by {
                if a < i {
                    assert(req.subrange(0, i as int)[a] == p[a]);
                }
            }
        }
        i = i + 1;
    }
    assert(req.subrange(0, req.len() as int) == req);
    Ok(out)
}

/// The topic attributes that the broker knows.
pub open spec fn topic_attribute_rules() -> Seq<(Seq<char>, AttributeRuleView)> {
    seq![
        ("queue.type"@, AttributeRuleView {
            changeable: false,
            allowed_values: seq!["SimpleCQ"@, "BatchCQ"@],
        }),
        ("cleanup.policy"@, AttributeRuleView {
            changeable: false,
            allowed_values: seq!["DELETE"@, "COMPACTION"@],
        }),
        ("message.type"@, AttributeRuleView {
            changeable: true,
            allowed_values: seq![
                "UNSPECIFIED"@,
                "NORMAL"@,
                "FIFO"@,
                "DELAY"@,
                "TRANSACTION"@,
                "MIXED"@,
            ],
        }),
    ]
}

/// The allow-list of topic attributes.
pub fn topic_attributes_all() -> (r: Vec<AttributeRule>)
    ensures
        rule_entries(r@) == topic_attribute_rules(),
{
    let queue_type = AttributeRule {
        name: String::from_str("queue.type"),
        changeable: false,
        allowed_values: vec![String::from_str("SimpleCQ"), String::from_str("BatchCQ")],
    };
    let cleanup_policy = AttributeRule {
        name: String::from_str("cleanup.policy"),
        changeable: false,
        allowed_values: vec![String::from_str("DELETE"), String::from_str("COMPACTION")],
    };
    let message_type = AttributeRule {
        name: String::from_str("message.type"),
        changeable: true,
        allowed_values: vec![
            String::from_str("UNSPECIFIED"),
            String::from_str("NORMAL"),
            String::from_str("FIFO"),
            String::from_str("DELAY"),
            String::from_str("TRANSACTION"),
            String::from_str("MIXED"),
        ],
    };
    assert(queue_type.allowed_values@.map_values(|v: String| v@) =~= seq!["SimpleCQ"@, "BatchCQ"@]);
    assert(cleanup_policy.allowed_values@.map_values(|v: String| v@) =~= seq!["DELETE"@, "COMPACTION"@]);
    assert(message_type.allowed_values@.map_values(|v: String| v@) =~= seq![
        "UNSPECIFIED"@,
        "NORMAL"@,
        "FIFO"@,
        "DELAY"@,
        "TRANSACTION"@,
        "MIXED"@,
    ]);
    let r = vec![queue_type, cleanup_policy, message_type];
    assert(rule_entries(r@) =~= topic_attribute_rules());
    r
}

} // verus!
