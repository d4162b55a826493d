//! Rulesets in the PHPMD format: loading, references, overrides and the
//! command-line name filters.

use vstd::prelude::*;
use crate::analyze::kind::RuleKind;
use crate::text::{chars_of, lower, parse_unsigned, parse_unsigned_of, push_all, push_str, string_of, texts, trim, trim_bounds};
use crate::report::chars_of_string;

verus! {

/// A rule selected from a ruleset after load and filter.
pub struct LoadedRule {
    pub name: String,
    pub ruleset_name: String,
    /// Priority 1 (highest) through 5.
    pub priority: u8,
    /// Rule properties, each name once.
    pub properties: Vec<(String, String)>,
    pub kind: RuleKind,
    /// PHPMD-style message template with `{0}` placeholders.
    pub message: String,
}

/// A loaded rule as plain values.
pub struct RuleView {
    pub name: Seq<char>,
    pub ruleset_name: Seq<char>,
    pub priority: u8,
    pub properties: Seq<(Seq<char>, Seq<char>)>,
    pub kind: RuleKind,
    pub message: Seq<char>,
}

impl View for LoadedRule {
    type V = RuleView;

    open spec fn view(&self) -> RuleView {
        RuleView {
            name: self.name@,
            ruleset_name: self.ruleset_name@,
            priority: self.priority,
            properties: prop_views(self.properties@),
            kind: self.kind,
            message: self.message@,
        }
    }
}

pub open spec fn rule_views(rs: Seq<LoadedRule>) -> Seq<RuleView> {
    rs.map_values(|r: LoadedRule| r@)
}

/// The value of property `key` among `props`.
pub open spec fn prop_lookup(props: Seq<(String, String)>, key: Seq<char>) -> Option<Seq<char>>
    decreases props.len(),
{
    if props.len() == 0 {
        None
    } else if props[0].0@ == key {
        Some(props[0].1@)
    } else {
        prop_lookup(props.drop_first(), key)
    }
}

impl LoadedRule {
    /// The value of property `key`, if the rule has it.
    pub open spec fn property(&self, key: Seq<char>) -> Option<Seq<char>> {
        prop_lookup(self.properties@, key)
    }

    /// The value of property `key`, if the rule has it.
    pub fn get_property(&self, key: &str) -> (r: Option<&String>)
        ensures
            r matches Some(v) ==> self.property(key@) == Some(v@),
            r is None ==> self.property(key@) is None,
    {
        let k = crate::text::chars_of(key);
        let mut i: usize = 0;
        assert(self.properties@.skip(0) =~= self.properties@);
        while i < self.properties.len()
            invariant
                i <= self.properties.len(),
                k@ == key@,
                prop_lookup(self.properties@, key@) == prop_lookup(
                    self.properties@.skip(i as int),
                    key@,
                ),
            decreases self.properties.len() - i,
        {
            let name = crate::report::chars_of_string(&self.properties[i].0);
            assert(self.properties@.skip(i as int)[0] == self.properties@[i as int]);
            assert(self.properties@.skip(i as int).drop_first() =~= self.properties@.skip(i + 1));
            if crate::text::chars_eq(&name, &k) {
                return Some(&self.properties[i].1);
            }
            i = i + 1;
        }
        None
    }
}

/// The priority bounds a load keeps (0 disables a bound).
pub struct LoadOptions {
    pub min_priority: u8,
    pub max_priority: u8,
}

impl Default for LoadOptions {
    fn default() -> (r: Self)
        ensures
            r.min_priority == 0,
            r.max_priority == 1,
    {
        LoadOptions { min_priority: 0, max_priority: 1 }
    }
}

// ----- XML documents ---------------------------------------------------------

/// One node of a parsed XML document, in document order: its depth below
/// the document, whether it is an element, its tag name, its attributes and
/// its text (an element's leading text child).
pub struct XmlNode {
    pub depth: usize,
    pub element: bool,
    pub tag: String,
    pub attributes: Vec<(String, String)>,
    pub text: Option<String>,
}

/// A node as plain values.
pub open spec fn node_value(n: XmlNode) -> (nat, bool, Seq<char>, Seq<(Seq<char>, Seq<char>)>, Option<Seq<char>>) {
    (
        n.depth as nat,
        n.element,
        n.tag@,
        n.attributes@.map_values(|a: (String, String)| (a.0@, a.1@)),
        match n.text {
            Some(t) => Some(t@),
            None => None,
        },
    )
}

pub open spec fn node_values(ns: Seq<XmlNode>) -> Seq<(nat, bool, Seq<char>, Seq<(Seq<char>, Seq<char>)>, Option<Seq<char>>)> {
    ns.map_values(|n: XmlNode| node_value(n))
}

/// The nodes of the root element of an XML text and of everything below it,
/// in document order, or the parser's message.
pub uninterp spec fn xml_parse(text: Seq<char>) -> Result<Seq<(nat, bool, Seq<char>, Seq<(Seq<char>, Seq<char>)>, Option<Seq<char>>)>, Seq<char>>;

/// `roxmltree::Document::parse`, the root element and its descendants
/// listed in document order; the error as its message. What it gives
/// depends on the text alone.
#[verifier::external_body]
fn parse_xml(text: &str) -> (r: Result<Vec<XmlNode>, String>)
    ensures
        match r {
            Ok(ns) => xml_parse(text@) == Ok::<_, Seq<char>>(node_values(ns@)),
            Err(e) => xml_parse(text@) == Err::<Seq<(nat, bool, Seq<char>, Seq<(Seq<char>, Seq<char>)>, Option<Seq<char>>)>, _>(e@),
        },
{
    match roxmltree::Document::parse(text) {
        Ok(doc) => Ok(doc.root_element().descendants().map(|n| XmlNode {
            depth: n.ancestors().count(),
            element: n.is_element(),
            tag: n.tag_name().name().to_string(),
            attributes: n.attributes().map(|a| (a.name().to_string(), a.value().to_string())).collect(),
            text: n.text().map(|t| t.to_string()),
        }).collect()),
        Err(e) => Err(e.to_string()),
    }
}

/// The value of attribute `name` of a node, if it has one.
pub open spec fn attr_lookup(attrs: Seq<(String, String)>, name: Seq<char>) -> Option<Seq<char>>
    decreases attrs.len(),
{
    if attrs.len() == 0 {
        None
    } else if attrs[0].0@ == name {
        Some(attrs[0].1@)
    } else {
        attr_lookup(attrs.drop_first(), name)
    }
}

/// The value of attribute `name`, empty when absent.
fn attribute_or_empty(n: &XmlNode, name: &str) -> (r: String)
    ensures
        r@ == match attr_lookup(n.attributes@, name@) {
            Some(v) => v,
            None => Seq::<char>::empty(),
        },
{
    let k = chars_of(name);
    let mut i: usize = 0;
    assert(n.attributes@.skip(0) =~= n.attributes@);
    while i < n.attributes.len()
        invariant
            i <= n.attributes.len(),
            k@ == name@,
            attr_lookup(n.attributes@, name@) == attr_lookup(n.attributes@.skip(i as int), name@),
        decreases n.attributes.len() - i,
    {
        let a = chars_of_string(&n.attributes[i].0);
        assert(n.attributes@.skip(i as int)[0] == n.attributes@[i as int]);
        assert(n.attributes@.skip(i as int).drop_first() =~= n.attributes@.skip(i + 1));
        if crate::text::chars_eq(&a, &k) {
            return n.attributes[i].1.clone();
        }
        i = i + 1;
    }
    String::new()
}

/// Whether attribute `name` is present.
fn has_attribute(n: &XmlNode, name: &str) -> (b: bool)
    ensures
        b == attr_lookup(n.attributes@, name@) is Some,
{
    let k = chars_of(name);
    let mut i: usize = 0;
    assert(n.attributes@.skip(0) =~= n.attributes@);
    while i < n.attributes.len()
        invariant
            i <= n.attributes.len(),
            k@ == name@,
            attr_lookup(n.attributes@, name@) == attr_lookup(n.attributes@.skip(i as int), name@),
        decreases n.attributes.len() - i,
    {
        let a = chars_of_string(&n.attributes[i].0);
        assert(n.attributes@.skip(i as int)[0] == n.attributes@[i as int]);
        assert(n.attributes@.skip(i as int).drop_first() =~= n.attributes@.skip(i + 1));
        if crate::text::chars_eq(&a, &k) {
            return true;
        }
        i = i + 1;
    }
    false
}

fn tag_is(n: &XmlNode, tag: &str) -> (b: bool)
    ensures
        b == (n.tag@ == tag@),
{
    let t = chars_of_string(&n.tag);
    let w = chars_of(tag);
    crate::text::chars_eq(&t, &w)
}

/// The end of the subtree of the node at `i`: the first later node that is
/// not deeper.
fn subtree_end(ns: &Vec<XmlNode>, i: usize) -> (e: usize)
    requires
        i < ns.len(),
    ensures
        i < e <= ns.len(),
        forall|k: int| i < k < e ==> ns@[k].depth > ns@[i as int].depth,
        e < ns.len() ==> ns@[e as int].depth <= ns@[i as int].depth,
        e == subtree_end_of(node_values(ns@), i as int),
{
    let ghost vals = node_values(ns@);
    let d = ns[i].depth;
    let mut k = i + 1;
    while k < ns.len() && ns[k].depth > d
        invariant
            i < k <= ns.len(),
            d == ns@[i as int].depth,
            vals == node_values(ns@),
            forall|j: int| i < j < k ==> ns@[j].depth > d,
            subtree_end_of(vals, i as int) == subtree_end_from(vals, i as int, k as int),
        decreases ns.len() - k,
    {
        assert(vals[k as int].0 > vals[i as int].0);
        k = k + 1;
    }
    k
}

/// The attributes of a node say what the values of its node say.
proof fn lemma_node_attr(ns: Seq<XmlNode>, k: int, name: Seq<char>)
    requires
        0 <= k < ns.len(),
    ensures
        attr_lookup(ns[k].attributes@, name) == attr_value(node_values(ns)[k].3, name),
{
    lemma_attr_value(ns[k].attributes@, name);
}

// ----- the meaning of a node list ---------------------------------------

/// A node as the parser gives it: depth, whether it is an element, tag,
/// attributes and text.
pub type NodeValue = (nat, bool, Seq<char>, Seq<(Seq<char>, Seq<char>)>, Option<Seq<char>>);

/// The first value of attribute `name`.
pub open spec fn attr_value(attrs: Seq<(Seq<char>, Seq<char>)>, name: Seq<char>) -> Option<Seq<char>>
    decreases attrs.len(),
{
    if attrs.len() == 0 {
        None
    } else if attrs[0].0 == name {
        Some(attrs[0].1)
    } else {
        attr_value(attrs.drop_first(), name)
    }
}

/// The value of attribute `name` of node `v`, empty when absent.
pub open spec fn attr_or_empty(v: NodeValue, name: Seq<char>) -> Seq<char> {
    match attr_value(v.3, name) {
        Some(a) => a,
        None => Seq::empty(),
    }
}

/// The text of node `v`, empty when it has none.
pub open spec fn text_or_empty(v: NodeValue) -> Seq<char> {
    match v.4 {
        Some(t) => t,
        None => Seq::empty(),
    }
}

/// The end of the subtree of node `i`, searching from `k`: the first node
/// that is not deeper than `i`.
pub open spec fn subtree_end_from(vals: Seq<NodeValue>, i: int, k: int) -> int
    decreases vals.len() - k,
{
    if k >= vals.len() || k < 0 {
        vals.len() as int
    } else if vals[k].0 <= vals[i].0 {
        k
    } else {
        subtree_end_from(vals, i, k + 1)
    }
}

pub open spec fn subtree_end_of(vals: Seq<NodeValue>, i: int) -> int {
    subtree_end_from(vals, i, i + 1)
}

/// Whether node `k` is a child element of node `i` tagged `tag`.
pub open spec fn child_tagged(vals: Seq<NodeValue>, i: int, k: int, tag: Seq<char>) -> bool {
    &&& vals[k].0 == vals[i].0 + 1
    &&& vals[k].1
    &&& vals[k].2 == tag
}

/// The position of the first property named `name`, from `k` on.
pub open spec fn prop_index(ps: Seq<(Seq<char>, Seq<char>)>, name: Seq<char>, k: int) -> Option<int>
    decreases ps.len() - k,
{
    if k < 0 || k >= ps.len() {
        None
    } else if ps[k].0 == name {
        Some(k)
    } else {
        prop_index(ps, name, k + 1)
    }
}

/// `ps` with property `name` set to `value`: the first entry of that name
/// replaced, or a new entry at the end.
pub open spec fn prop_set(ps: Seq<(Seq<char>, Seq<char>)>, name: Seq<char>, value: Seq<char>) -> Seq<(Seq<char>, Seq<char>)> {
    match prop_index(ps, name, 0) {
        Some(i) => ps.update(i, (name, value)),
        None => ps.push((name, value)),
    }
}

pub open spec fn prop_views(ps: Seq<(String, String)>) -> Seq<(Seq<char>, Seq<char>)> {
    ps.map_values(|p: (String, String)| (p.0@, p.1@))
}

/// The first `<value>` child of node `q` from `k` on, before `end`.
pub open spec fn value_child(vals: Seq<NodeValue>, q: int, k: int, end: int) -> Option<int>
    decreases end - k,
{
    if k >= end || k < 0 || end > vals.len() {
        None
    } else if child_tagged(vals, q, k, "value"@) {
        Some(k)
    } else {
        value_child(vals, q, k + 1, end)
    }
}

/// The value of the `<property>` node `q`: its `value` attribute when not
/// empty, else the trimmed text of its first `<value>` child.
pub open spec fn property_value_of(vals: Seq<NodeValue>, q: int) -> Seq<char> {
    let a = attr_or_empty(vals[q], "value"@);
    if a.len() > 0 {
        a
    } else {
        match value_child(vals, q, q + 1, subtree_end_of(vals, q)) {
            Some(c) => match vals[c].4 {
                Some(t) => trim(t),
                None => Seq::empty(),
            },
            None => Seq::empty(),
        }
    }
}

/// `start` with the named `<property>` children of node `j` before `k`
/// set in order.
pub open spec fn props_upto(vals: Seq<NodeValue>, j: int, k: int, start: Seq<(Seq<char>, Seq<char>)>) -> Seq<(Seq<char>, Seq<char>)>
    decreases k - j,
{
    if k <= j + 1 {
        start
    } else {
        let p = props_upto(vals, j, k - 1, start);
        let q = k - 1;
        if child_tagged(vals, j, q, "property"@) && attr_or_empty(vals[q], "name"@).len() > 0 {
            prop_set(p, attr_or_empty(vals[q], "name"@), property_value_of(vals, q))
        } else {
            p
        }
    }
}

/// A `<rule>` entry as plain values.
pub struct RuleDoc {
    pub name: Seq<char>,
    pub class: Seq<char>,
    pub message: Seq<char>,
    pub ref_path: Seq<char>,
    pub priority: Option<u8>,
    pub properties: Seq<(Seq<char>, Seq<char>)>,
    pub excludes: Seq<Seq<char>>,
}

/// What the attributes of `<rule>` node `i` give.
pub open spec fn rule_head(vals: Seq<NodeValue>, i: int) -> RuleDoc {
    RuleDoc {
        name: attr_or_empty(vals[i], "name"@),
        class: attr_or_empty(vals[i], "class"@),
        message: attr_or_empty(vals[i], "message"@),
        ref_path: attr_or_empty(vals[i], "ref"@),
        priority: None,
        properties: Seq::empty(),
        excludes: Seq::empty(),
    }
}

/// Rule `r` once child node `k` of `<rule>` node `i` is read: a
/// `<priority>` sets the priority when its trimmed text is a number from 1
/// to 5, `<properties>` sets its properties, an `<exclude>` with a name adds
/// an exclusion.
pub open spec fn rule_step(vals: Seq<NodeValue>, i: int, r: RuleDoc, k: int) -> RuleDoc {
    if child_tagged(vals, i, k, "priority"@) {
        match parse_unsigned(trim(text_or_empty(vals[k])), 5) {
            Some(p) => if p >= 1 {
                RuleDoc { priority: Some(p as u8), ..r }
            } else {
                r
            },
            None => r,
        }
    } else if child_tagged(vals, i, k, "properties"@) {
        RuleDoc { properties: props_upto(vals, k, subtree_end_of(vals, k), r.properties), ..r }
    } else if child_tagged(vals, i, k, "exclude"@) && attr_value(vals[k].3, "name"@) is Some {
        RuleDoc { excludes: r.excludes.push(attr_or_empty(vals[k], "name"@)), ..r }
    } else {
        r
    }
}

/// The `<rule>` node `i` once the nodes before `k` are read.
pub open spec fn rule_upto(vals: Seq<NodeValue>, i: int, k: int) -> RuleDoc
    decreases k - i,
{
    if k <= i + 1 {
        rule_head(vals, i)
    } else {
        rule_step(vals, i, rule_upto(vals, i, k - 1), k - 1)
    }
}

/// The `<rule>` node `i`.
pub open spec fn rule_doc(vals: Seq<NodeValue>, i: int) -> RuleDoc {
    rule_upto(vals, i, subtree_end_of(vals, i))
}

/// The `<rule>` children of the root before `k`.
pub open spec fn rules_upto(vals: Seq<NodeValue>, k: int) -> Seq<RuleDoc>
    decreases k,
{
    if k <= 1 {
        Seq::empty()
    } else {
        let r = rules_upto(vals, k - 1);
        if child_tagged(vals, 0, k - 1, "rule"@) {
            r.push(rule_doc(vals, k - 1))
        } else {
            r
        }
    }
}

/// A ruleset document: the root must be `<ruleset>`; its name and its
/// `<rule>` children.
pub open spec fn ruleset_doc(vals: Seq<NodeValue>) -> Result<(Seq<char>, Seq<RuleDoc>), Seq<char>> {
    if vals.len() == 0 || vals[0].2 != "ruleset"@ {
        Err("ruleset XML root must be <ruleset>"@)
    } else {
        Ok((attr_or_empty(vals[0], "name"@), rules_upto(vals, subtree_end_of(vals, 0))))
    }
}

proof fn lemma_attr_value(attrs: Seq<(String, String)>, name: Seq<char>)
    ensures
        attr_lookup(attrs, name) == attr_value(attrs.map_values(|a: (String, String)| (a.0@, a.1@)), name),
    decreases attrs.len(),
{
    let m = attrs.map_values(|a: (String, String)| (a.0@, a.1@));
    if attrs.len() > 0 {
        assert(m.drop_first() =~= attrs.drop_first().map_values(|a: (String, String)| (a.0@, a.1@)));
        lemma_attr_value(attrs.drop_first(), name);
    }
}

proof fn lemma_prop_index_skip(ps: Seq<(Seq<char>, Seq<char>)>, name: Seq<char>, k: int, i: int)
    requires
        0 <= k <= i <= ps.len(),
        forall|j: int| k <= j < i ==> ps[j].0 != name,
    ensures
        prop_index(ps, name, k) == prop_index(ps, name, i),
    decreases i - k,
{
    if k < i {
        lemma_prop_index_skip(ps, name, k + 1, i);
    }
}

// ----- ruleset documents -------------------------------------------------

/// A `<rule>` entry of a ruleset file.
pub struct XmlRule {
    pub name: String,
    pub class: String,
    pub message: String,
    pub ref_path: String,
    pub priority: Option<u8>,
    pub properties: Vec<(String, String)>,
    pub excludes: Vec<String>,
}

impl View for XmlRule {
    type V = RuleDoc;

    open spec fn view(&self) -> RuleDoc {
        RuleDoc {
            name: self.name@,
            class: self.class@,
            message: self.message@,
            ref_path: self.ref_path@,
            priority: self.priority,
            properties: prop_views(self.properties@),
            excludes: texts(self.excludes@),
        }
    }
}

/// A parsed ruleset file.
pub struct XmlRuleset {
    pub name: String,
    pub rules: Vec<XmlRule>,
}

/// Sets property `name` to `value`, replacing an earlier value.
pub fn set_property(props: &mut Vec<(String, String)>, name: String, value: String)
    ensures
        prop_views(final(props)@) == prop_set(prop_views(old(props)@), name@, value@),
        forall|k: Seq<char>|
            prop_lookup(final(props)@, k) == if k == name@ {
                Some(value@)
            } else {
                prop_lookup(old(props)@, k)
            },
{
    let n = chars_of_string(&name);
    let mut i: usize = 0;
    while i < props.len()
        invariant
            i <= props.len(),
            props@ == old(props)@,
            n@ == name@,
            forall|j: int| 0 <= j < i ==> props@[j].0@ != name@,
        decreases props.len() - i,
    {
        let k = chars_of_string(&props[i].0);
        if crate::text::chars_eq(&k, &n) {
            let ghost before = props@;
            props.set(i, (name, value));
            proof {
                lemma_lookup_update(before, i as int, props@[i as int]);
                lemma_prop_index_skip(prop_views(before), name@, 0, i as int);
                assert(prop_views(props@) =~= prop_views(before).update(i as int, (name@, value@)));
            }
            return;
        }
        i = i + 1;
    }
    let ghost before = props@;
    props.push((name, value));
    proof {
        lemma_lookup_push(before, props@.last());
        lemma_prop_index_skip(prop_views(before), name@, 0, before.len() as int);
        assert(prop_views(props@) =~= prop_views(before).push((name@, value@)));
    }
}

proof fn lemma_lookup_update_at(ps: Seq<(String, String)>, i: int, x: (String, String), k: Seq<char>)
    requires
        0 <= i < ps.len(),
        ps[i].0@ == x.0@,
        forall|j: int| 0 <= j < i ==> ps[j].0@ != x.0@,
    ensures
        prop_lookup(ps.update(i, x), k) == if k == x.0@ {
            Some(x.1@)
        } else {
            prop_lookup(ps, k)
        },
    decreases i,
{
    let u = ps.update(i, x);
    assert(u.len() == ps.len());
    if i == 0 {
        assert(u[0] == x);
        assert(u.drop_first() =~= ps.drop_first());
    } else {
        assert(u[0] == ps[0]);
        assert(ps[0].0@ != x.0@);
        assert(u.drop_first() =~= ps.drop_first().update(i - 1, x));
        lemma_lookup_update_at(ps.drop_first(), i - 1, x, k);
    }
}

proof fn lemma_lookup_update(ps: Seq<(String, String)>, i: int, x: (String, String))
    requires
        0 <= i < ps.len(),
        ps[i].0@ == x.0@,
        forall|j: int| 0 <= j < i ==> ps[j].0@ != x.0@,
    ensures
        forall|k: Seq<char>|
            prop_lookup(ps.update(i, x), k) == if k == x.0@ {
                Some(x.1@)
            } else {
                prop_lookup(ps, k)
            },
{
    assert forall|k: Seq<char>|
        prop_lookup(ps.update(i, x), k) == if k == x.0@ {
            Some(x.1@)
        } else {
            prop_lookup(ps, k)
        } by {
        lemma_lookup_update_at(ps, i, x, k);
    }
}

proof fn lemma_lookup_push_at(ps: Seq<(String, String)>, x: (String, String), k: Seq<char>)
    requires
        forall|j: int| 0 <= j < ps.len() ==> ps[j].0@ != x.0@,
    ensures
        prop_lookup(ps.push(x), k) == if k == x.0@ {
            Some(x.1@)
        } else {
            prop_lookup(ps, k)
        },
    decreases ps.len(),
{
    let p = ps.push(x);
    if ps.len() == 0 {
        assert(p[0] == x);
        assert(p.drop_first() =~= Seq::<(String, String)>::empty());
        assert(prop_lookup(p.drop_first(), k) is None);
        assert(prop_lookup(ps, k) is None);
    } else {
        assert(p[0] == ps[0]);
        assert(ps[0].0@ != x.0@);
        assert(p.drop_first() =~= ps.drop_first().push(x));
        lemma_lookup_push_at(ps.drop_first(), x, k);
    }
}

proof fn lemma_lookup_push(ps: Seq<(String, String)>, x: (String, String))
    requires
        forall|j: int| 0 <= j < ps.len() ==> ps[j].0@ != x.0@,
    ensures
        forall|k: Seq<char>|
            prop_lookup(ps.push(x), k) == if k == x.0@ {
                Some(x.1@)
            } else {
                prop_lookup(ps, k)
            },
{
    assert forall|k: Seq<char>|
        prop_lookup(ps.push(x), k) == if k == x.0@ {
            Some(x.1@)
        } else {
            prop_lookup(ps, k)
        } by {
        lemma_lookup_push_at(ps, x, k);
    }
}

/// The value of a `<property>` node at `i`: its `value` attribute when not
/// empty, else the trimmed text of its first `<value>` child element.
fn property_value(ns: &Vec<XmlNode>, i: usize) -> (r: String)
    requires
        i < ns.len(),
    ensures
        r@ == property_value_of(node_values(ns@), i as int),
{
    let ghost vals = node_values(ns@);
    proof {
        lemma_node_attr(ns@, i as int, "value"@);
    }
    let attribute = attribute_or_empty(&ns[i], "value");
    if !attribute_is_empty(&attribute) {
        return attribute;
    }
    let end = subtree_end(ns, i);
    let d = ns[i].depth;
    let mut k = i + 1;
    while k < end
        invariant
            i < k <= end <= ns.len(),
            d == ns@[i as int].depth,
            vals == node_values(ns@),
            end == subtree_end_of(vals, i as int),
            forall|j: int| i < j < end ==> ns@[j].depth > d,
            value_child(vals, i as int, i + 1, end as int) == value_child(vals, i as int, k as int, end as int),
            attr_or_empty(vals[i as int], "value"@).len() == 0,
        decreases end - k,
    {
        if ns[k].depth - 1 == d && ns[k].element && tag_is(&ns[k], "value") {
            assert(child_tagged(vals, i as int, k as int, "value"@));
            assert(value_child(vals, i as int, k as int, end as int) == Some(k as int));
            assert(attr_or_empty(vals[i as int], "value"@).len() == 0);
            return match &ns[k].text {
                Some(t) => {
                    assert(vals[k as int].4 == Some(t@));
                    let v = chars_of_string(t);
                    let (a, b) = trim_bounds(&v, 0, v.len());
                    assert(v@.subrange(0, v@.len() as int) =~= v@);
                    string_of(&crate::text::slice_of(&v, a, b))
                },
                None => {
                    assert(vals[k as int].4.is_none());
                    String::new()
                },
            };
        }
        assert(!child_tagged(vals, i as int, k as int, "value"@));
        k = k + 1;
    }
    String::new()
}

fn attribute_is_empty(s: &String) -> (b: bool)
    ensures
        b == (s@.len() == 0),
{
    chars_of_string(s).len() == 0
}

/// Reads the `<rule>` element at `i`.
fn parse_rule(ns: &Vec<XmlNode>, i: usize) -> (r: XmlRule)
    requires
        i < ns.len(),
    ensures
        r@ == rule_doc(node_values(ns@), i as int),
{
    let ghost vals = node_values(ns@);
    proof {
        lemma_node_attr(ns@, i as int, "name"@);
        lemma_node_attr(ns@, i as int, "class"@);
        lemma_node_attr(ns@, i as int, "message"@);
        lemma_node_attr(ns@, i as int, "ref"@);
    }
    let mut rule = XmlRule {
        name: attribute_or_empty(&ns[i], "name"),
        class: attribute_or_empty(&ns[i], "class"),
        message: attribute_or_empty(&ns[i], "message"),
        ref_path: attribute_or_empty(&ns[i], "ref"),
        priority: None,
        properties: Vec::new(),
        excludes: Vec::new(),
    };
    assert(prop_views(rule.properties@) =~= Seq::<(Seq<char>, Seq<char>)>::empty());
    assert(texts(rule.excludes@) =~= Seq::<Seq<char>>::empty());
    let end = subtree_end(ns, i);
    let d = ns[i].depth;
    let mut k = i + 1;
    while k < end
        invariant
            i < k <= end <= ns.len(),
            d == ns@[i as int].depth,
            vals == node_values(ns@),
            end == subtree_end_of(vals, i as int),
            forall|j: int| i < j < end ==> ns@[j].depth > d,
            rule@ == rule_upto(vals, i as int, k as int),
        decreases end - k,
    {
        let ghost before = rule@;
        if ns[k].depth - 1 == d && ns[k].element {
            if tag_is(&ns[k], "priority") {
                assert(child_tagged(vals, i as int, k as int, "priority"@));
                let text = match &ns[k].text {
                    Some(t) => chars_of_string(t),
                    None => Vec::new(),
                };
                assert(text@ == text_or_empty(vals[k as int]));
                let (a, b) = trim_bounds(&text, 0, text.len());
                assert(text@.subrange(0, text@.len() as int) =~= text@);
                let trimmed = string_of(&crate::text::slice_of(&text, a, b));
                match parse_unsigned_of(trimmed.as_str(), 5) {
                    Some(p) => {
                        assert(p <= 5);
                        if p >= 1 {
                            rule.priority = Some(p as u8);
                        }
                    },
                    None => {},
                }
                assert(rule@ == rule_step(vals, i as int, before, k as int));
            } else if tag_is(&ns[k], "properties") {
                assert(child_tagged(vals, i as int, k as int, "properties"@));
                let pend = subtree_end(ns, k);
                let pd = ns[k].depth;
                let mut j = k + 1;
                let ghost start = prop_views(rule.properties@);
                while j < pend
                    invariant
                        k < j <= pend <= ns.len(),
                        pd == ns@[k as int].depth,
                        vals == node_values(ns@),
                        pend == subtree_end_of(vals, k as int),
                        forall|q: int| k < q < pend ==> ns@[q].depth > pd,
                        rule@ == (RuleDoc { properties: prop_views(rule.properties@), ..before }),
                        prop_views(rule.properties@) == props_upto(vals, k as int, j as int, start),
                    decreases pend - j,
                {
                    if ns[j].depth - 1 == pd && ns[j].element && tag_is(&ns[j], "property") {
                        proof {
                            lemma_node_attr(ns@, j as int, "name"@);
                        }
                        let name = attribute_or_empty(&ns[j], "name");
                        if !attribute_is_empty(&name) {
                            let value = property_value(ns, j);
                            set_property(&mut rule.properties, name, value);
                        }
                    }
                    j = j + 1;
                }
                assert(rule@ == rule_step(vals, i as int, before, k as int));
            } else if tag_is(&ns[k], "exclude") {
                proof {
                    lemma_node_attr(ns@, k as int, "name"@);
                }
                if has_attribute(&ns[k], "name") {
                    let ghost ex = rule.excludes@;
                    rule.excludes.push(attribute_or_empty(&ns[k], "name"));
                    assert(texts(rule.excludes@) =~= texts(ex).push(attr_or_empty(vals[k as int], "name"@)));
                }
                assert(rule@ == rule_step(vals, i as int, before, k as int));
            } else {
                assert(rule@ == rule_step(vals, i as int, before, k as int));
            }
        } else {
            assert(!child_tagged(vals, i as int, k as int, "priority"@));
            assert(!child_tagged(vals, i as int, k as int, "properties"@));
            assert(!child_tagged(vals, i as int, k as int, "exclude"@));
        }
        k = k + 1;
    }
    rule
}

/// The entries of parsed `<rule>` elements as plain values.
pub open spec fn rule_docs(rs: Seq<XmlRule>) -> Seq<RuleDoc> {
    rs.map_values(|r: XmlRule| r@)
}

/// Parses a ruleset file: a `<ruleset>` root element with `<rule>`
/// children.
pub fn parse_ruleset(xml: &str) -> (r: Result<XmlRuleset, String>)
    ensures
        match xml_parse(xml@) {
            Err(m) => r matches Err(e) && e@ == "invalid ruleset XML: "@ + m,
            Ok(vals) => match ruleset_doc(vals) {
                Err(m) => r matches Err(e) && e@ == m,
                Ok(doc) => r matches Ok(rs) && rs.name@ == doc.0 && rule_docs(rs.rules@) == doc.1,
            },
        },
{
    match parse_xml(xml) {
        Ok(ns) => ruleset_from_nodes(&ns),
        Err(e) => {
            let mut m = chars_of("invalid ruleset XML: ");
            let ec = chars_of_string(&e);
            push_all(&mut m, &ec);
            Err(string_of(&m))
        },
    }
}

/// Reads a ruleset document from its nodes, the root element first.
pub fn ruleset_from_nodes(ns: &Vec<XmlNode>) -> (r: Result<XmlRuleset, String>)
    ensures
        match ruleset_doc(node_values(ns@)) {
            Err(m) => r matches Err(e) && e@ == m,
            Ok(doc) => r matches Ok(rs) && rs.name@ == doc.0 && rule_docs(rs.rules@) == doc.1,
        },
{
    let ghost vals = node_values(ns@);
    if ns.len() == 0 || !tag_is(&ns[0], "ruleset") {
        proof {
            reveal_strlit("ruleset XML root must be <ruleset>");
        }
        return Err(string_of(&chars_of("ruleset XML root must be <ruleset>")));
    }
    proof {
        lemma_node_attr(ns@, 0, "name"@);
    }
    let name = attribute_or_empty(&ns[0], "name");
    let end = subtree_end(ns, 0);
    let d = ns[0].depth;
    let mut rules: Vec<XmlRule> = Vec::new();
    let mut k: usize = 1;
    assert(rule_docs(rules@) =~= rules_upto(vals, 1));
    while k < end
        invariant
            1 <= k <= end <= ns.len(),
            d == ns@[0].depth,
            vals == node_values(ns@),
            end == subtree_end_of(vals, 0),
            forall|j: int| 0 < j < end ==> ns@[j].depth > d,
            rule_docs(rules@) == rules_upto(vals, k as int),
        decreases end - k,
    {
        let ghost before = rules@;
        if ns[k].depth - 1 == d && ns[k].element && tag_is(&ns[k], "rule") {
            assert(child_tagged(vals, 0, k as int, "rule"@));
            rules.push(parse_rule(ns, k));
            assert(rule_docs(rules@) =~= rule_docs(before).push(rule_doc(vals, k as int)));
        } else {
            assert(!child_tagged(vals, 0, k as int, "rule"@));
        }
        k = k + 1;
    }
    Ok(XmlRuleset { name, rules })
}

// ----- rule classes ----------------------------------------------------------

/// The rule kind implementing a PHPMD rule class.
pub open spec fn kind_of_class(class: Seq<char>) -> Option<RuleKind> {
    if class == "PHPMD\\Rule\\CyclomaticComplexity"@ { Some(RuleKind::CyclomaticComplexity) }
    else if class == "PHPMD\\Rule\\Design\\NpathComplexity"@ { Some(RuleKind::NPathComplexity) }
    else if class == "PHPMD\\Rule\\Design\\LongMethod"@ { Some(RuleKind::ExcessiveMethodLength) }
    else if class == "PHPMD\\Rule\\Design\\LongClass"@ { Some(RuleKind::ExcessiveClassLength) }
    else if class == "PHPMD\\Rule\\Design\\LongParameterList"@ { Some(RuleKind::ExcessiveParameterList) }
    else if class == "PHPMD\\Rule\\ExcessivePublicCount"@ { Some(RuleKind::ExcessivePublicCount) }
    else if class == "PHPMD\\Rule\\Design\\TooManyFields"@ { Some(RuleKind::TooManyFields) }
    else if class == "PHPMD\\Rule\\Design\\TooManyMethods"@ { Some(RuleKind::TooManyMethods) }
    else if class == "PHPMD\\Rule\\Design\\TooManyPublicMethods"@ { Some(RuleKind::TooManyPublicMethods) }
    else if class == "PHPMD\\Rule\\Design\\WeightedMethodCount"@ { Some(RuleKind::ExcessiveClassComplexity) }
    else if class == "PHPMD\\Rule\\Naming\\ShortClassName"@ { Some(RuleKind::ShortClassName) }
    else if class == "PHPMD\\Rule\\Naming\\LongClassName"@ { Some(RuleKind::LongClassName) }
    else if class == "PHPMD\\Rule\\Naming\\ShortVariable"@ { Some(RuleKind::ShortVariable) }
    else if class == "PHPMD\\Rule\\Naming\\LongVariable"@ { Some(RuleKind::LongVariable) }
    else if class == "PHPMD\\Rule\\Naming\\ShortMethodName"@ { Some(RuleKind::ShortMethodName) }
    else if class == "PHPMD\\Rule\\Naming\\ConstantNamingConventions"@ { Some(RuleKind::ConstantNamingConventions) }
    else if class == "PHPMD\\Rule\\Naming\\BooleanGetMethodName"@ { Some(RuleKind::BooleanGetMethodName) }
    else if class == "PHPMD\\Rule\\UnusedPrivateField"@ { Some(RuleKind::UnusedPrivateField) }
    else if class == "PHPMD\\Rule\\UnusedLocalVariable"@ { Some(RuleKind::UnusedLocalVariable) }
    else if class == "PHPMD\\Rule\\UnusedPrivateMethod"@ { Some(RuleKind::UnusedPrivateMethod) }
    else if class == "PHPMD\\Rule\\UnusedFormalParameter"@ { Some(RuleKind::UnusedFormalParameter) }
    else if class == "PHPMD\\Rule\\CleanCode\\BooleanArgumentFlag"@ { Some(RuleKind::BooleanArgumentFlag) }
    else if class == "PHPMD\\Rule\\CleanCode\\ElseExpression"@ { Some(RuleKind::ElseExpression) }
    else if class == "PHPMD\\Rule\\CleanCode\\IfStatementAssignment"@ { Some(RuleKind::IfStatementAssignment) }
    else if class == "PHPMD\\Rule\\CleanCode\\DuplicatedArrayKey"@ { Some(RuleKind::DuplicatedArrayKey) }
    else if class == "PHPMD\\Rule\\CleanCode\\StaticAccess"@ { Some(RuleKind::StaticAccess) }
    else if class == "PHPMD\\Rule\\Design\\ExitExpression"@ { Some(RuleKind::ExitExpression) }
    else if class == "PHPMD\\Rule\\Design\\GotoStatement"@ { Some(RuleKind::GotoStatement) }
    else if class == "PHPMD\\Rule\\Design\\CountInLoopExpression"@ { Some(RuleKind::CountInLoopExpression) }
    else if class == "PHPMD\\Rule\\Design\\DevelopmentCodeFragment"@ { Some(RuleKind::DevelopmentCodeFragment) }
    else if class == "PHPMD\\Rule\\Design\\EmptyCatchBlock"@ { Some(RuleKind::EmptyCatchBlock) }
    else if class == "PHPMD\\Rule\\Design\\CouplingBetweenObjects"@ { Some(RuleKind::CouplingBetweenObjects) }
    else if class == "PHPMD\\Rule\\Design\\GlobalVariable"@ { Some(RuleKind::GlobalVariable) }
    else if class == "PHPMD\\Rule\\Design\\LackOfCohesionOfMethods"@ { Some(RuleKind::LackOfCohesionOfMethods) }
    else if class == "PHPMD\\Rule\\Controversial\\CamelCaseClassName"@ { Some(RuleKind::CamelCaseClassName) }
    else if class == "PHPMD\\Rule\\Controversial\\CamelCaseMethodName"@ { Some(RuleKind::CamelCaseMethodName) }
    else if class == "PHPMD\\Rule\\Controversial\\CamelCasePropertyName"@ { Some(RuleKind::CamelCasePropertyName) }
    else if class == "PHPMD\\Rule\\Controversial\\CamelCaseParameterName"@ { Some(RuleKind::CamelCaseParameterName) }
    else if class == "PHPMD\\Rule\\Controversial\\CamelCaseVariableName"@ { Some(RuleKind::CamelCaseVariableName) }
    else { None }
}

/// Each PHPMD rule class names its own rule kind: no two classes give the
/// same kind.
pub proof fn law_rule_classes_are_distinct(c1: Seq<char>, c2: Seq<char>)
    requires
        kind_of_class(c1) is Some,
        kind_of_class(c1) == kind_of_class(c2),
    ensures
        c1 == c2,
{
}



/// Every rule kind is implemented for some PHPMD rule class: each kind can
/// be loaded from a ruleset.
#[verifier::spinoff_prover]
#[verifier::rlimit(50)]
pub proof fn law_every_kind_has_a_class(k: RuleKind)
    ensures
        exists|c: Seq<char>| kind_of_class(c) == Some(k),
{
    match k {
        RuleKind::CyclomaticComplexity => {
            reveal_strlit("PHPMD\\Rule\\CyclomaticComplexity");
            assert(kind_of_class("PHPMD\\Rule\\CyclomaticComplexity"@) == Some(RuleKind::CyclomaticComplexity));
        },
        RuleKind::NPathComplexity => {
            reveal_strlit("PHPMD\\Rule\\CyclomaticComplexity");
            reveal_strlit("PHPMD\\Rule\\Design\\NpathComplexity");
            assert("PHPMD\\Rule\\CyclomaticComplexity"@.len() != "PHPMD\\Rule\\Design\\NpathComplexity"@.len());
            assert("PHPMD\\Rule\\CyclomaticComplexity"@ != "PHPMD\\Rule\\Design\\NpathComplexity"@);
            assert(kind_of_class("PHPMD\\Rule\\Design\\NpathComplexity"@) == Some(RuleKind::NPathComplexity));
        },
        RuleKind::ExcessiveMethodLength => {
            reveal_strlit("PHPMD\\Rule\\CyclomaticComplexity");
            reveal_strlit("PHPMD\\Rule\\Design\\NpathComplexity");
            reveal_strlit("PHPMD\\Rule\\Design\\LongMethod");
            assert("PHPMD\\Rule\\CyclomaticComplexity"@.len() != "PHPMD\\Rule\\Design\\LongMethod"@.len());
            assert("PHPMD\\Rule\\CyclomaticComplexity"@ != "PHPMD\\Rule\\Design\\LongMethod"@);
            assert("PHPMD\\Rule\\Design\\NpathComplexity"@.len() != "PHPMD\\Rule\\Design\\LongMethod"@.len());
            assert("PHPMD\\Rule\\Design\\NpathComplexity"@ != "PHPMD\\Rule\\Design\\LongMethod"@);
            assert(kind_of_class("PHPMD\\Rule\\Design\\LongMethod"@) == Some(RuleKind::ExcessiveMethodLength));
        },
        RuleKind::ExcessiveClassLength => {
            reveal_strlit("PHPMD\\Rule\\CyclomaticComplexity");
            reveal_strlit("PHPMD\\Rule\\Design\\NpathComplexity");
            reveal_strlit("PHPMD\\Rule\\Design\\LongMethod");
            reveal_strlit("PHPMD\\Rule\\Design\\LongClass");
            assert("PHPMD\\Rule\\CyclomaticComplexity"@.len() != "PHPMD\\Rule\\Design\\LongClass"@.len());
            assert("PHPMD\\Rule\\CyclomaticComplexity"@ != "PHPMD\\Rule\\Design\\LongClass"@);
            assert("PHPMD\\Rule\\Design\\NpathComplexity"@.len() != "PHPMD\\Rule\\Design\\LongClass"@.len());
            assert("PHPMD\\Rule\\Design\\NpathComplexity"@ != "PHPMD\\Rule\\Design\\LongClass"@);
            assert("PHPMD\\Rule\\Design\\LongMethod"@.len() != "PHPMD\\Rule\\Design\\LongClass"@.len());
            assert("PHPMD\\Rule\\Design\\LongMethod"@ != "PHPMD\\Rule\\Design\\LongClass"@);
            assert(kind_of_class("PHPMD\\Rule\\Design\\LongClass"@) == Some(RuleKind::ExcessiveClassLength));
        },
        RuleKind::ExcessiveParameterList => {
            reveal_strlit("PHPMD\\Rule\\CyclomaticComplexity");
            reveal_strlit("PHPMD\\Rule\\Design\\NpathComplexity");
            reveal_strlit("PHPMD\\Rule\\Design\\LongMethod");
            reveal_strlit("PHPMD\\Rule\\Design\\LongClass");
            reveal_strlit("PHPMD\\Rule\\Design\\LongParameterList");
            assert("PHPMD\\Rule\\CyclomaticComplexity"@.len() != "PHPMD\\Rule\\Design\\LongParameterList"@.len());
            assert("PHPMD\\Rule\\CyclomaticComplexity"@ != "PHPMD\\Rule\\Design\\LongParameterList"@);
            assert("PHPMD\\Rule\\Design\\NpathComplexity"@.len() != "PHPMD\\Rule\\Design\\LongParameterList"@.len());
            assert("PHPMD\\Rule\\Design\\NpathComplexity"@ != "PHPMD\\Rule\\Design\\LongParameterList"@);
            assert("PHPMD\\Rule\\Design\\LongMethod"@.len() != "PHPMD\\Rule\\Design\\LongParameterList"@.len());
            assert("PHPMD\\Rule\\Design\\LongMethod"@ != "PHPMD\\Rule\\Design\\LongParameterList"@);
            assert("PHPMD\\Rule\\Design\\LongClass"@.len() != "PHPMD\\Rule\\Design\\LongParameterList"@.len());
            assert("PHPMD\\Rule\\Design\\LongClass"@ != "PHPMD\\Rule\\Design\\LongParameterList"@);
            assert(kind_of_class("PHPMD\\Rule\\Design\\LongParameterList"@) == Some(RuleKind::ExcessiveParameterList));
        },
        RuleKind::ExcessivePublicCount => {
            reveal_strlit("PHPMD\\Rule\\CyclomaticComplexity");
            reveal_strlit("PHPMD\\Rule\\Design\\NpathComplexity");
            reveal_strlit("PHPMD\\Rule\\Design\\LongMethod");
            reveal_strlit("PHPMD\\Rule\\Design\\LongClass");
            reveal_strlit("PHPMD\\Rule\\Design\\LongParameterList");
            reveal_strlit("PHPMD\\Rule\\ExcessivePublicCount");
            assert("PHPMD\\Rule\\CyclomaticComplexity"@[11] != "PHPMD\\Rule\\ExcessivePublicCount"@[11]);
            assert("PHPMD\\Rule\\CyclomaticComplexity"@ != "PHPMD\\Rule\\ExcessivePublicCount"@);
            assert("PHPMD\\Rule\\Design\\NpathComplexity"@.len() != "PHPMD\\Rule\\ExcessivePublicCount"@.len());
            assert("PHPMD\\Rule\\Design\\NpathComplexity"@ != "PHPMD\\Rule\\ExcessivePublicCount"@);
            assert("PHPMD\\Rule\\Design\\LongMethod"@.len() != "PHPMD\\Rule\\ExcessivePublicCount"@.len());
            assert("PHPMD\\Rule\\Design\\LongMethod"@ != "PHPMD\\Rule\\ExcessivePublicCount"@);
            assert("PHPMD\\Rule\\Design\\LongClass"@.len() != "PHPMD\\Rule\\ExcessivePublicCount"@.len());
            assert("PHPMD\\Rule\\Design\\LongClass"@ != "PHPMD\\Rule\\ExcessivePublicCount"@);
            assert("PHPMD\\Rule\\Design\\LongParameterList"@.len() != "PHPMD\\Rule\\ExcessivePublicCount"@.len());
            assert("PHPMD\\Rule\\Design\\LongParameterList"@ != "PHPMD\\Rule\\ExcessivePublicCount"@);
            assert(kind_of_class("PHPMD\\Rule\\ExcessivePublicCount"@) == Some(RuleKind::ExcessivePublicCount));
        },
        RuleKind::TooManyFields => {
            reveal_strlit("PHPMD\\Rule\\CyclomaticComplexity");
            reveal_strlit("PHPMD\\Rule\\Design\\NpathComplexity");
            reveal_strlit("PHPMD\\Rule\\Design\\LongMethod");
            reveal_strlit("PHPMD\\Rule\\Design\\LongClass");
            reveal_strlit("PHPMD\\Rule\\Design\\LongParameterList");
            reveal_strlit("PHPMD\\Rule\\ExcessivePublicCount");
            reveal_strlit("PHPMD\\Rule\\Design\\TooManyFields");
            assert("PHPMD\\Rule\\CyclomaticComplexity"@[11] != "PHPMD\\Rule\\Design\\TooManyFields"@[11]);
            assert("PHPMD\\Rule\\CyclomaticComplexity"@ != "PHPMD\\Rule\\Design\\TooManyFields"@);
            assert("PHPMD\\Rule\\Design\\NpathComplexity"@.len() != "PHPMD\\Rule\\Design\\TooManyFields"@.len());
            assert("PHPMD\\Rule\\Design\\NpathComplexity"@ != "PHPMD\\Rule\\Design\\TooManyFields"@);
            assert("PHPMD\\Rule\\Design\\LongMethod"@.len() != "PHPMD\\Rule\\Design\\TooManyFields"@.len());
            assert("PHPMD\\Rule\\Design\\LongMethod"@ != "PHPMD\\Rule\\Design\\TooManyFields"@);
            assert("PHPMD\\Rule\\Design\\LongClass"@.len() != "PHPMD\\Rule\\Design\\TooManyFields"@.len());
            assert("PHPMD\\Rule\\Design\\LongClass"@ != "PHPMD\\Rule\\Design\\TooManyFields"@);
            assert("PHPMD\\Rule\\Design\\LongParameterList"@.len() != "PHPMD\\Rule\\Design\\TooManyFields"@.len());
            assert("PHPMD\\Rule\\Design\\LongParameterList"@ != "PHPMD\\Rule\\Design\\TooManyFields"@);
            assert("PHPMD\\Rule\\ExcessivePublicCount"@[11] != "PHPMD\\Rule\\Design\\TooManyFields"@[11]);
            assert("PHPMD\\Rule\\ExcessivePublicCount"@ != "PHPMD\\Rule\\Design\\TooManyFields"@);
            assert(kind_of_class("PHPMD\\Rule\\Design\\TooManyFields"@) == Some(RuleKind::TooManyFields));
        },
        RuleKind::TooManyMethods => {
            reveal_strlit("PHPMD\\Rule\\CyclomaticComplexity");
            reveal_strlit("PHPMD\\Rule\\Design\\NpathComplexity");
            reveal_strlit("PHPMD\\Rule\\Design\\LongMethod");
            reveal_strlit("PHPMD\\Rule\\Design\\LongClass");
            reveal_strlit("PHPMD\\Rule\\Design\\LongParameterList");
            reveal_strlit("PHPMD\\Rule\\ExcessivePublicCount");
            reveal_strlit("PHPMD\\Rule\\Design\\TooManyFields");
            reveal_strlit("PHPMD\\Rule\\Design\\TooManyMethods");
            assert("PHPMD\\Rule\\CyclomaticComplexity"@.len() != "PHPMD\\Rule\\Design\\TooManyMethods"@.len());
            assert("PHPMD\\Rule\\CyclomaticComplexity"@ != "PHPMD\\Rule\\Design\\TooManyMethods"@);
            assert("PHPMD\\Rule\\Design\\NpathComplexity"@.len() != "PHPMD\\Rule\\Design\\TooManyMethods"@.len());
            assert("PHPMD\\Rule\\Design\\NpathComplexity"@ != "PHPMD\\Rule\\Design\\TooManyMethods"@);
            assert("PHPMD\\Rule\\Design\\LongMethod"@.len() != "PHPMD\\Rule\\Design\\TooManyMethods"@.len());
            assert("PHPMD\\Rule\\Design\\LongMethod"@ != "PHPMD\\Rule\\Design\\TooManyMethods"@);
            assert("PHPMD\\Rule\\Design\\LongClass"@.len() != "PHPMD\\Rule\\Design\\TooManyMethods"@.len());
            assert("PHPMD\\Rule\\Design\\LongClass"@ != "PHPMD\\Rule\\Design\\TooManyMethods"@);
            assert("PHPMD\\Rule\\Design\\LongParameterList"@.len() != "PHPMD\\Rule\\Design\\TooManyMethods"@.len());
            assert("PHPMD\\Rule\\Design\\LongParameterList"@ != "PHPMD\\Rule\\Design\\TooManyMethods"@);
            assert("PHPMD\\Rule\\ExcessivePublicCount"@.len() != "PHPMD\\Rule\\Design\\TooManyMethods"@.len());
            assert("PHPMD\\Rule\\ExcessivePublicCount"@ != "PHPMD\\Rule\\Design\\TooManyMethods"@);
            assert("PHPMD\\Rule\\Design\\TooManyFields"@.len() != "PHPMD\\Rule\\Design\\TooManyMethods"@.len());
            assert("PHPMD\\Rule\\Design\\TooManyFields"@ != "PHPMD\\Rule\\Design\\TooManyMethods"@);
            assert(kind_of_class("PHPMD\\Rule\\Design\\TooManyMethods"@) == Some(RuleKind::TooManyMethods));
        },
        RuleKind::TooManyPublicMethods => {
            reveal_strlit("PHPMD\\Rule\\CyclomaticComplexity");
            reveal_strlit("PHPMD\\Rule\\Design\\NpathComplexity");
            reveal_strlit("PHPMD\\Rule\\Design\\LongMethod");
            reveal_strlit("PHPMD\\Rule\\Design\\LongClass");
            reveal_strlit("PHPMD\\Rule\\Design\\LongParameterList");
            reveal_strlit("PHPMD\\Rule\\ExcessivePublicCount");
            reveal_strlit("PHPMD\\Rule\\Design\\TooManyFields");
            reveal_strlit("PHPMD\\Rule\\Design\\TooManyMethods");
            reveal_strlit("PHPMD\\Rule\\Design\\TooManyPublicMethods");
            assert("PHPMD\\Rule\\CyclomaticComplexity"@.len() != "PHPMD\\Rule\\Design\\TooManyPublicMethods"@.len());
            assert("PHPMD\\Rule\\CyclomaticComplexity"@ != "PHPMD\\Rule\\Design\\TooManyPublicMethods"@);
            assert("PHPMD\\Rule\\Design\\NpathComplexity"@.len() != "PHPMD\\Rule\\Design\\TooManyPublicMethods"@.len());
            assert("PHPMD\\Rule\\Design\\NpathComplexity"@ != "PHPMD\\Rule\\Design\\TooManyPublicMethods"@);
            assert("PHPMD\\Rule\\Design\\LongMethod"@.len() != "PHPMD\\Rule\\Design\\TooManyPublicMethods"@.len());
            assert("PHPMD\\Rule\\Design\\LongMethod"@ != "PHPMD\\Rule\\Design\\TooManyPublicMethods"@);
            assert("PHPMD\\Rule\\Design\\LongClass"@.len() != "PHPMD\\Rule\\Design\\TooManyPublicMethods"@.len());
            assert("PHPMD\\Rule\\Design\\LongClass"@ != "PHPMD\\Rule\\Design\\TooManyPublicMethods"@);
            assert("PHPMD\\Rule\\Design\\LongParameterList"@.len() != "PHPMD\\Rule\\Design\\TooManyPublicMethods"@.len());
            assert("PHPMD\\Rule\\Design\\LongParameterList"@ != "PHPMD\\Rule\\Design\\TooManyPublicMethods"@);
            assert("PHPMD\\Rule\\ExcessivePublicCount"@.len() != "PHPMD\\Rule\\Design\\TooManyPublicMethods"@.len());
            assert("PHPMD\\Rule\\ExcessivePublicCount"@ != "PHPMD\\Rule\\Design\\TooManyPublicMethods"@);
            assert("PHPMD\\Rule\\Design\\TooManyFields"@.len() != "PHPMD\\Rule\\Design\\TooManyPublicMethods"@.len());
            assert("PHPMD\\Rule\\Design\\TooManyFields"@ != "PHPMD\\Rule\\Design\\TooManyPublicMethods"@);
            assert("PHPMD\\Rule\\Design\\TooManyMethods"@.len() != "PHPMD\\Rule\\Design\\TooManyPublicMethods"@.len());
            assert("PHPMD\\Rule\\Design\\TooManyMethods"@ != "PHPMD\\Rule\\Design\\TooManyPublicMethods"@);
            assert(kind_of_class("PHPMD\\Rule\\Design\\TooManyPublicMethods"@) == Some(RuleKind::TooManyPublicMethods));
        },
        RuleKind::ExcessiveClassComplexity => {
            reveal_strlit("PHPMD\\Rule\\CyclomaticComplexity");
            reveal_strlit("PHPMD\\Rule\\Design\\NpathComplexity");
            reveal_strlit("PHPMD\\Rule\\Design\\LongMethod");
            reveal_strlit("PHPMD\\Rule\\Design\\LongClass");
            reveal_strlit("PHPMD\\Rule\\Design\\LongParameterList");
            reveal_strlit("PHPMD\\Rule\\ExcessivePublicCount");
            reveal_strlit("PHPMD\\Rule\\Design\\TooManyFields");
            reveal_strlit("PHPMD\\Rule\\Design\\TooManyMethods");
            reveal_strlit("PHPMD\\Rule\\Design\\TooManyPublicMethods");
            reveal_strlit("PHPMD\\Rule\\Design\\WeightedMethodCount");
            assert("PHPMD\\Rule\\CyclomaticComplexity"@.len() != "PHPMD\\Rule\\Design\\WeightedMethodCount"@.len());
            assert("PHPMD\\Rule\\CyclomaticComplexity"@ != "PHPMD\\Rule\\Design\\WeightedMethodCount"@);
            assert("PHPMD\\Rule\\Design\\NpathComplexity"@.len() != "PHPMD\\Rule\\Design\\WeightedMethodCount"@.len());
            assert("PHPMD\\Rule\\Design\\NpathComplexity"@ != "PHPMD\\Rule\\Design\\WeightedMethodCount"@);
            assert("PHPMD\\Rule\\Design\\LongMethod"@.len() != "PHPMD\\Rule\\Design\\WeightedMethodCount"@.len());
            assert("PHPMD\\Rule\\Design\\LongMethod"@ != "PHPMD\\Rule\\Design\\WeightedMethodCount"@);
            assert("PHPMD\\Rule\\Design\\LongClass"@.len() != "PHPMD\\Rule\\Design\\WeightedMethodCount"@.len());
            assert("PHPMD\\Rule\\Design\\LongClass"@ != "PHPMD\\Rule\\Design\\WeightedMethodCount"@);
            assert("PHPMD\\Rule\\Design\\LongParameterList"@.len() != "PHPMD\\Rule\\Design\\WeightedMethodCount"@.len());
            assert("PHPMD\\Rule\\Design\\LongParameterList"@ != "PHPMD\\Rule\\Design\\WeightedMethodCount"@);
            assert("PHPMD\\Rule\\ExcessivePublicCount"@.len() != "PHPMD\\Rule\\Design\\WeightedMethodCount"@.len());
            assert("PHPMD\\Rule\\ExcessivePublicCount"@ != "PHPMD\\Rule\\Design\\WeightedMethodCount"@);
            assert("PHPMD\\Rule\\Design\\TooManyFields"@.len() != "PHPMD\\Rule\\Design\\WeightedMethodCount"@.len());
            assert("PHPMD\\Rule\\Design\\TooManyFields"@ != "PHPMD\\Rule\\Design\\WeightedMethodCount"@);
            assert("PHPMD\\Rule\\Design\\TooManyMethods"@.len() != "PHPMD\\Rule\\Design\\WeightedMethodCount"@.len());
            assert("PHPMD\\Rule\\Design\\TooManyMethods"@ != "PHPMD\\Rule\\Design\\WeightedMethodCount"@);
            assert("PHPMD\\Rule\\Design\\TooManyPublicMethods"@.len() != "PHPMD\\Rule\\Design\\WeightedMethodCount"@.len());
            assert("PHPMD\\Rule\\Design\\TooManyPublicMethods"@ != "PHPMD\\Rule\\Design\\WeightedMethodCount"@);
            assert(kind_of_class("PHPMD\\Rule\\Design\\WeightedMethodCount"@) == Some(RuleKind::ExcessiveClassComplexity));
        },
        RuleKind::ShortClassName => {
            reveal_strlit("PHPMD\\Rule\\CyclomaticComplexity");
            reveal_strlit("PHPMD\\Rule\\Design\\NpathComplexity");
            reveal_strlit("PHPMD\\Rule\\Design\\LongMethod");
            reveal_strlit("PHPMD\\Rule\\Design\\LongClass");
            reveal_strlit("PHPMD\\Rule\\Design\\LongParameterList");
            reveal_strlit("PHPMD\\Rule\\ExcessivePublicCount");
            reveal_strlit("PHPMD\\Rule\\Design\\TooManyFields");
            reveal_strlit("PHPMD\\Rule\\Design\\TooManyMethods");
            reveal_strlit("PHPMD\\Rule\\Design\\TooManyPublicMethods");
            reveal_strlit("PHPMD\\Rule\\Design\\WeightedMethodCount");
            reveal_strlit("PHPMD\\Rule\\Naming\\ShortClassName");
            assert("PHPMD\\Rule\\CyclomaticComplexity"@.len() != "PHPMD\\Rule\\Naming\\ShortClassName"@.len());
            assert("PHPMD\\Rule\\CyclomaticComplexity"@ != "PHPMD\\Rule\\Naming\\ShortClassName"@);
            assert("PHPMD\\Rule\\Design\\NpathComplexity"@.len() != "PHPMD\\Rule\\Naming\\ShortClassName"@.len());
            assert("PHPMD\\Rule\\Design\\NpathComplexity"@ != "PHPMD\\Rule\\Naming\\ShortClassName"@);
            assert("PHPMD\\Rule\\Design\\LongMethod"@.len() != "PHPMD\\Rule\\Naming\\ShortClassName"@.len());
            assert("PHPMD\\Rule\\Design\\LongMethod"@ != "PHPMD\\Rule\\Naming\\ShortClassName"@);
            assert("PHPMD\\Rule\\Design\\LongClass"@.len() != "PHPMD\\Rule\\Naming\\ShortClassName"@.len());
            assert("PHPMD\\Rule\\Design\\LongClass"@ != "PHPMD\\Rule\\Naming\\ShortClassName"@);
            assert("PHPMD\\Rule\\Design\\LongParameterList"@.len() != "PHPMD\\Rule\\Naming\\ShortClassName"@.len());
            assert("PHPMD\\Rule\\Design\\LongParameterList"@ != "PHPMD\\Rule\\Naming\\ShortClassName"@);
            assert("PHPMD\\Rule\\ExcessivePublicCount"@.len() != "PHPMD\\Rule\\Naming\\ShortClassName"@.len());
            assert("PHPMD\\Rule\\ExcessivePublicCount"@ != "PHPMD\\Rule\\Naming\\ShortClassName"@);
            assert("PHPMD\\Rule\\Design\\TooManyFields"@.len() != "PHPMD\\Rule\\Naming\\ShortClassName"@.len());
            assert("PHPMD\\Rule\\Design\\TooManyFields"@ != "PHPMD\\Rule\\Naming\\ShortClassName"@);
            assert("PHPMD\\Rule\\Design\\TooManyMethods"@[11] != "PHPMD\\Rule\\Naming\\ShortClassName"@[11]);
            assert("PHPMD\\Rule\\Design\\TooManyMethods"@ != "PHPMD\\Rule\\Naming\\ShortClassName"@);
            assert("PHPMD\\Rule\\Design\\TooManyPublicMethods"@.len() != "PHPMD\\Rule\\Naming\\ShortClassName"@.len());
            assert("PHPMD\\Rule\\Design\\TooManyPublicMethods"@ != "PHPMD\\Rule\\Naming\\ShortClassName"@);
            assert("PHPMD\\Rule\\Design\\WeightedMethodCount"@.len() != "PHPMD\\Rule\\Naming\\ShortClassName"@.len());
            assert("PHPMD\\Rule\\Design\\WeightedMethodCount"@ != "PHPMD\\Rule\\Naming\\ShortClassName"@);
            assert(kind_of_class("PHPMD\\Rule\\Naming\\ShortClassName"@) == Some(RuleKind::ShortClassName));
        },
        RuleKind::LongClassName => {
            reveal_strlit("PHPMD\\Rule\\CyclomaticComplexity");
            reveal_strlit("PHPMD\\Rule\\Design\\NpathComplexity");
            reveal_strlit("PHPMD\\Rule\\Design\\LongMethod");
            reveal_strlit("PHPMD\\Rule\\Design\\LongClass");
            reveal_strlit("PHPMD\\Rule\\Design\\LongParameterList");
            reveal_strlit("PHPMD\\Rule\\ExcessivePublicCount");
            reveal_strlit("PHPMD\\Rule\\Design\\TooManyFields");
            reveal_strlit("PHPMD\\Rule\\Design\\TooManyMethods");
            reveal_strlit("PHPMD\\Rule\\Design\\TooManyPublicMethods");
            reveal_strlit("PHPMD\\Rule\\Design\\WeightedMethodCount");
            reveal_strlit("PHPMD\\Rule\\Naming\\ShortClassName");
            reveal_strlit("PHPMD\\Rule\\Naming\\LongClassName");
            assert("PHPMD\\Rule\\CyclomaticComplexity"@[11] != "PHPMD\\Rule\\Naming\\LongClassName"@[11]);
            assert("PHPMD\\Rule\\CyclomaticComplexity"@ != "PHPMD\\Rule\\Naming\\LongClassName"@);
            assert("PHPMD\\Rule\\Design\\NpathComplexity"@.len() != "PHPMD\\Rule\\Naming\\LongClassName"@.len());
            assert("PHPMD\\Rule\\Design\\NpathComplexity"@ != "PHPMD\\Rule\\Naming\\LongClassName"@);
            assert("PHPMD\\Rule\\Design\\LongMethod"@.len() != "PHPMD\\Rule\\Naming\\LongClassName"@.len());
            assert("PHPMD\\Rule\\Design\\LongMethod"@ != "PHPMD\\Rule\\Naming\\LongClassName"@);
            assert("PHPMD\\Rule\\Design\\LongClass"@.len() != "PHPMD\\Rule\\Naming\\LongClassName"@.len());
            assert("PHPMD\\Rule\\Design\\LongClass"@ != "PHPMD\\Rule\\Naming\\LongClassName"@);
            assert("PHPMD\\Rule\\Design\\LongParameterList"@.len() != "PHPMD\\Rule\\Naming\\LongClassName"@.len());
            assert("PHPMD\\Rule\\Design\\LongParameterList"@ != "PHPMD\\Rule\\Naming\\LongClassName"@);
            assert("PHPMD\\Rule\\ExcessivePublicCount"@[11] != "PHPMD\\Rule\\Naming\\LongClassName"@[11]);
            assert("PHPMD\\Rule\\ExcessivePublicCount"@ != "PHPMD\\Rule\\Naming\\LongClassName"@);
            assert("PHPMD\\Rule\\Design\\TooManyFields"@[11] != "PHPMD\\Rule\\Naming\\LongClassName"@[11]);
            assert("PHPMD\\Rule\\Design\\TooManyFields"@ != "PHPMD\\Rule\\Naming\\LongClassName"@);
            assert("PHPMD\\Rule\\Design\\TooManyMethods"@.len() != "PHPMD\\Rule\\Naming\\LongClassName"@.len());
            assert("PHPMD\\Rule\\Design\\TooManyMethods"@ != "PHPMD\\Rule\\Naming\\LongClassName"@);
            assert("PHPMD\\Rule\\Design\\TooManyPublicMethods"@.len() != "PHPMD\\Rule\\Naming\\LongClassName"@.len());
            assert("PHPMD\\Rule\\Design\\TooManyPublicMethods"@ != "PHPMD\\Rule\\Naming\\LongClassName"@);
            assert("PHPMD\\Rule\\Design\\WeightedMethodCount"@.len() != "PHPMD\\Rule\\Naming\\LongClassName"@.len());
            assert("PHPMD\\Rule\\Design\\WeightedMethodCount"@ != "PHPMD\\Rule\\Naming\\LongClassName"@);
            assert("PHPMD\\Rule\\Naming\\ShortClassName"@.len() != "PHPMD\\Rule\\Naming\\LongClassName"@.len());
            assert("PHPMD\\Rule\\Naming\\ShortClassName"@ != "PHPMD\\Rule\\Naming\\LongClassName"@);
            assert(kind_of_class("PHPMD\\Rule\\Naming\\LongClassName"@) == Some(RuleKind::LongClassName));
        },
        RuleKind::ShortVariable => {
            reveal_strlit("PHPMD\\Rule\\CyclomaticComplexity");
            reveal_strlit("PHPMD\\Rule\\Design\\NpathComplexity");
            reveal_strlit("PHPMD\\Rule\\Design\\LongMethod");
            reveal_strlit("PHPMD\\Rule\\Design\\LongClass");
            reveal_strlit("PHPMD\\Rule\\Design\\LongParameterList");
            reveal_strlit("PHPMD\\Rule\\ExcessivePublicCount");
            reveal_strlit("PHPMD\\Rule\\Design\\TooManyFields");
            reveal_strlit("PHPMD\\Rule\\Design\\TooManyMethods");
            reveal_strlit("PHPMD\\Rule\\Design\\TooManyPublicMethods");
            reveal_strlit("PHPMD\\Rule\\Design\\WeightedMethodCount");
            reveal_strlit("PHPMD\\Rule\\Naming\\ShortClassName");
            reveal_strlit("PHPMD\\Rule\\Naming\\LongClassName");
            reveal_strlit("PHPMD\\Rule\\Naming\\ShortVariable");
            assert("PHPMD\\Rule\\CyclomaticComplexity"@[11] != "PHPMD\\Rule\\Naming\\ShortVariable"@[11]);
            assert("PHPMD\\Rule\\CyclomaticComplexity"@ != "PHPMD\\Rule\\Naming\\ShortVariable"@);
            assert("PHPMD\\Rule\\Design\\NpathComplexity"@.len() != "PHPMD\\Rule\\Naming\\ShortVariable"@.len());
            assert("PHPMD\\Rule\\Design\\NpathComplexity"@ != "PHPMD\\Rule\\Naming\\ShortVariable"@);
            assert("PHPMD\\Rule\\Design\\LongMethod"@.len() != "PHPMD\\Rule\\Naming\\ShortVariable"@.len());
            assert("PHPMD\\Rule\\Design\\LongMethod"@ != "PHPMD\\Rule\\Naming\\ShortVariable"@);
            assert("PHPMD\\Rule\\Design\\LongClass"@.len() != "PHPMD\\Rule\\Naming\\ShortVariable"@.len());
            assert("PHPMD\\Rule\\Design\\LongClass"@ != "PHPMD\\Rule\\Naming\\ShortVariable"@);
            assert("PHPMD\\Rule\\Design\\LongParameterList"@.len() != "PHPMD\\Rule\\Naming\\ShortVariable"@.len());
            assert("PHPMD\\Rule\\Design\\LongParameterList"@ != "PHPMD\\Rule\\Naming\\ShortVariable"@);
            assert("PHPMD\\Rule\\ExcessivePublicCount"@[11] != "PHPMD\\Rule\\Naming\\ShortVariable"@[11]);
            assert("PHPMD\\Rule\\ExcessivePublicCount"@ != "PHPMD\\Rule\\Naming\\ShortVariable"@);
            assert("PHPMD\\Rule\\Design\\TooManyFields"@[11] != "PHPMD\\Rule\\Naming\\ShortVariable"@[11]);
            assert("PHPMD\\Rule\\Design\\TooManyFields"@ != "PHPMD\\Rule\\Naming\\ShortVariable"@);
            assert("PHPMD\\Rule\\Design\\TooManyMethods"@.len() != "PHPMD\\Rule\\Naming\\ShortVariable"@.len());
            assert("PHPMD\\Rule\\Design\\TooManyMethods"@ != "PHPMD\\Rule\\Naming\\ShortVariable"@);
            assert("PHPMD\\Rule\\Design\\TooManyPublicMethods"@.len() != "PHPMD\\Rule\\Naming\\ShortVariable"@.len());
            assert("PHPMD\\Rule\\Design\\TooManyPublicMethods"@ != "PHPMD\\Rule\\Naming\\ShortVariable"@);
            assert("PHPMD\\Rule\\Design\\WeightedMethodCount"@.len() != "PHPMD\\Rule\\Naming\\ShortVariable"@.len());
            assert("PHPMD\\Rule\\Design\\WeightedMethodCount"@ != "PHPMD\\Rule\\Naming\\ShortVariable"@);
            assert("PHPMD\\Rule\\Naming\\ShortClassName"@.len() != "PHPMD\\Rule\\Naming\\ShortVariable"@.len());
            assert("PHPMD\\Rule\\Naming\\ShortClassName"@ != "PHPMD\\Rule\\Naming\\ShortVariable"@);
            assert("PHPMD\\Rule\\Naming\\LongClassName"@[18] != "PHPMD\\Rule\\Naming\\ShortVariable"@[18]);
            assert("PHPMD\\Rule\\Naming\\LongClassName"@ != "PHPMD\\Rule\\Naming\\ShortVariable"@);
            assert(kind_of_class("PHPMD\\Rule\\Naming\\ShortVariable"@) == Some(RuleKind::ShortVariable));
        },
        RuleKind::LongVariable => {
            reveal_strlit("PHPMD\\Rule\\CyclomaticComplexity");
            reveal_strlit("PHPMD\\Rule\\Design\\NpathComplexity");
            reveal_strlit("PHPMD\\Rule\\Design\\LongMethod");
            reveal_strlit("PHPMD\\Rule\\Design\\LongClass");
            reveal_strlit("PHPMD\\Rule\\Design\\LongParameterList");
            reveal_strlit("PHPMD\\Rule\\ExcessivePublicCount");
            reveal_strlit("PHPMD\\Rule\\Design\\TooManyFields");
            reveal_strlit("PHPMD\\Rule\\Design\\TooManyMethods");
            reveal_strlit("PHPMD\\Rule\\Design\\TooManyPublicMethods");
            reveal_strlit("PHPMD\\Rule\\Design\\WeightedMethodCount");
            reveal_strlit("PHPMD\\Rule\\Naming\\ShortClassName");
            reveal_strlit("PHPMD\\Rule\\Naming\\LongClassName");
            reveal_strlit("PHPMD\\Rule\\Naming\\ShortVariable");
            reveal_strlit("PHPMD\\Rule\\Naming\\LongVariable");
            assert("PHPMD\\Rule\\CyclomaticComplexity"@.len() != "PHPMD\\Rule\\Naming\\LongVariable"@.len());
            assert("PHPMD\\Rule\\CyclomaticComplexity"@ != "PHPMD\\Rule\\Naming\\LongVariable"@);
            assert("PHPMD\\Rule\\Design\\NpathComplexity"@.len() != "PHPMD\\Rule\\Naming\\LongVariable"@.len());
            assert("PHPMD\\Rule\\Design\\NpathComplexity"@ != "PHPMD\\Rule\\Naming\\LongVariable"@);
            assert("PHPMD\\Rule\\Design\\LongMethod"@.len() != "PHPMD\\Rule\\Naming\\LongVariable"@.len());
            assert("PHPMD\\Rule\\Design\\LongMethod"@ != "PHPMD\\Rule\\Naming\\LongVariable"@);
            assert("PHPMD\\Rule\\Design\\LongClass"@.len() != "PHPMD\\Rule\\Naming\\LongVariable"@.len());
            assert("PHPMD\\Rule\\Design\\LongClass"@ != "PHPMD\\Rule\\Naming\\LongVariable"@);
            assert("PHPMD\\Rule\\Design\\LongParameterList"@.len() != "PHPMD\\Rule\\Naming\\LongVariable"@.len());
            assert("PHPMD\\Rule\\Design\\LongParameterList"@ != "PHPMD\\Rule\\Naming\\LongVariable"@);
            assert("PHPMD\\Rule\\ExcessivePublicCount"@.len() != "PHPMD\\Rule\\Naming\\LongVariable"@.len());
            assert("PHPMD\\Rule\\ExcessivePublicCount"@ != "PHPMD\\Rule\\Naming\\LongVariable"@);
            assert("PHPMD\\Rule\\Design\\TooManyFields"@.len() != "PHPMD\\Rule\\Naming\\LongVariable"@.len());
            assert("PHPMD\\Rule\\Design\\TooManyFields"@ != "PHPMD\\Rule\\Naming\\LongVariable"@);
            assert("PHPMD\\Rule\\Design\\TooManyMethods"@.len() != "PHPMD\\Rule\\Naming\\LongVariable"@.len());
            assert("PHPMD\\Rule\\Design\\TooManyMethods"@ != "PHPMD\\Rule\\Naming\\LongVariable"@);
            assert("PHPMD\\Rule\\Design\\TooManyPublicMethods"@.len() != "PHPMD\\Rule\\Naming\\LongVariable"@.len());
            assert("PHPMD\\Rule\\Design\\TooManyPublicMethods"@ != "PHPMD\\Rule\\Naming\\LongVariable"@);
            assert("PHPMD\\Rule\\Design\\WeightedMethodCount"@.len() != "PHPMD\\Rule\\Naming\\LongVariable"@.len());
            assert("PHPMD\\Rule\\Design\\WeightedMethodCount"@ != "PHPMD\\Rule\\Naming\\LongVariable"@);
            assert("PHPMD\\Rule\\Naming\\ShortClassName"@.len() != "PHPMD\\Rule\\Naming\\LongVariable"@.len());
            assert("PHPMD\\Rule\\Naming\\ShortClassName"@ != "PHPMD\\Rule\\Naming\\LongVariable"@);
            assert("PHPMD\\Rule\\Naming\\LongClassName"@.len() != "PHPMD\\Rule\\Naming\\LongVariable"@.len());
            assert("PHPMD\\Rule\\Naming\\LongClassName"@ != "PHPMD\\Rule\\Naming\\LongVariable"@);
            assert("PHPMD\\Rule\\Naming\\ShortVariable"@.len() != "PHPMD\\Rule\\Naming\\LongVariable"@.len());
            assert("PHPMD\\Rule\\Naming\\ShortVariable"@ != "PHPMD\\Rule\\Naming\\LongVariable"@);
            assert(kind_of_class("PHPMD\\Rule\\Naming\\LongVariable"@) == Some(RuleKind::LongVariable));
        },
        RuleKind::ShortMethodName => {
            reveal_strlit("PHPMD\\Rule\\CyclomaticComplexity");
            reveal_strlit("PHPMD\\Rule\\Design\\NpathComplexity");
            reveal_strlit("PHPMD\\Rule\\Design\\LongMethod");
            reveal_strlit("PHPMD\\Rule\\Design\\LongClass");
            reveal_strlit("PHPMD\\Rule\\Design\\LongParameterList");
            reveal_strlit("PHPMD\\Rule\\ExcessivePublicCount");
            reveal_strlit("PHPMD\\Rule\\Design\\TooManyFields");
            reveal_strlit("PHPMD\\Rule\\Design\\TooManyMethods");
            reveal_strlit("PHPMD\\Rule\\Design\\TooManyPublicMethods");
            reveal_strlit("PHPMD\\Rule\\Design\\WeightedMethodCount");
            reveal_strlit("PHPMD\\Rule\\Naming\\ShortClassName");
            reveal_strlit("PHPMD\\Rule\\Naming\\LongClassName");
            reveal_strlit("PHPMD\\Rule\\Naming\\ShortVariable");
            reveal_strlit("PHPMD\\Rule\\Naming\\LongVariable");
            reveal_strlit("PHPMD\\Rule\\Naming\\ShortMethodName");
            assert("PHPMD\\Rule\\CyclomaticComplexity"@.len() != "PHPMD\\Rule\\Naming\\ShortMethodName"@.len());
            assert("PHPMD\\Rule\\CyclomaticComplexity"@ != "PHPMD\\Rule\\Naming\\ShortMethodName"@);
            assert("PHPMD\\Rule\\Design\\NpathComplexity"@[11] != "PHPMD\\Rule\\Naming\\ShortMethodName"@[11]);
            assert("PHPMD\\Rule\\Design\\NpathComplexity"@ != "PHPMD\\Rule\\Naming\\ShortMethodName"@);
            assert("PHPMD\\Rule\\Design\\LongMethod"@.len() != "PHPMD\\Rule\\Naming\\ShortMethodName"@.len());
            assert("PHPMD\\Rule\\Design\\LongMethod"@ != "PHPMD\\Rule\\Naming\\ShortMethodName"@);
            assert("PHPMD\\Rule\\Design\\LongClass"@.len() != "PHPMD\\Rule\\Naming\\ShortMethodName"@.len());
            assert("PHPMD\\Rule\\Design\\LongClass"@ != "PHPMD\\Rule\\Naming\\ShortMethodName"@);
            assert("PHPMD\\Rule\\Design\\LongParameterList"@.len() != "PHPMD\\Rule\\Naming\\ShortMethodName"@.len());
            assert("PHPMD\\Rule\\Design\\LongParameterList"@ != "PHPMD\\Rule\\Naming\\ShortMethodName"@);
            assert("PHPMD\\Rule\\ExcessivePublicCount"@.len() != "PHPMD\\Rule\\Naming\\ShortMethodName"@.len());
            assert("PHPMD\\Rule\\ExcessivePublicCount"@ != "PHPMD\\Rule\\Naming\\ShortMethodName"@);
            assert("PHPMD\\Rule\\Design\\TooManyFields"@.len() != "PHPMD\\Rule\\Naming\\ShortMethodName"@.len());
            assert("PHPMD\\Rule\\Design\\TooManyFields"@ != "PHPMD\\Rule\\Naming\\ShortMethodName"@);
            assert("PHPMD\\Rule\\Design\\TooManyMethods"@.len() != "PHPMD\\Rule\\Naming\\ShortMethodName"@.len());
            assert("PHPMD\\Rule\\Design\\TooManyMethods"@ != "PHPMD\\Rule\\Naming\\ShortMethodName"@);
            assert("PHPMD\\Rule\\Design\\TooManyPublicMethods"@.len() != "PHPMD\\Rule\\Naming\\ShortMethodName"@.len());
            assert("PHPMD\\Rule\\Design\\TooManyPublicMethods"@ != "PHPMD\\Rule\\Naming\\ShortMethodName"@);
            assert("PHPMD\\Rule\\Design\\WeightedMethodCount"@.len() != "PHPMD\\Rule\\Naming\\ShortMethodName"@.len());
            assert("PHPMD\\Rule\\Design\\WeightedMethodCount"@ != "PHPMD\\Rule\\Naming\\ShortMethodName"@);
            assert("PHPMD\\Rule\\Naming\\ShortClassName"@.len() != "PHPMD\\Rule\\Naming\\ShortMethodName"@.len());
            assert("PHPMD\\Rule\\Naming\\ShortClassName"@ != "PHPMD\\Rule\\Naming\\ShortMethodName"@);
            assert("PHPMD\\Rule\\Naming\\LongClassName"@.len() != "PHPMD\\Rule\\Naming\\ShortMethodName"@.len());
            assert("PHPMD\\Rule\\Naming\\LongClassName"@ != "PHPMD\\Rule\\Naming\\ShortMethodName"@);
            assert("PHPMD\\Rule\\Naming\\ShortVariable"@.len() != "PHPMD\\Rule\\Naming\\ShortMethodName"@.len());
            assert("PHPMD\\Rule\\Naming\\ShortVariable"@ != "PHPMD\\Rule\\Naming\\ShortMethodName"@);
            assert("PHPMD\\Rule\\Naming\\LongVariable"@.len() != "PHPMD\\Rule\\Naming\\ShortMethodName"@.len());
            assert("PHPMD\\Rule\\Naming\\LongVariable"@ != "PHPMD\\Rule\\Naming\\ShortMethodName"@);
            assert(kind_of_class("PHPMD\\Rule\\Naming\\ShortMethodName"@) == Some(RuleKind::ShortMethodName));
        },
        RuleKind::ConstantNamingConventions => {
            reveal_strlit("PHPMD\\Rule\\CyclomaticComplexity");
            reveal_strlit("PHPMD\\Rule\\Design\\NpathComplexity");
            reveal_strlit("PHPMD\\Rule\\Design\\LongMethod");
            reveal_strlit("PHPMD\\Rule\\Design\\LongClass");
            reveal_strlit("PHPMD\\Rule\\Design\\LongParameterList");
            reveal_strlit("PHPMD\\Rule\\ExcessivePublicCount");
            reveal_strlit("PHPMD\\Rule\\Design\\TooManyFields");
            reveal_strlit("PHPMD\\Rule\\Design\\TooManyMethods");
            reveal_strlit("PHPMD\\Rule\\Design\\TooManyPublicMethods");
            reveal_strlit("PHPMD\\Rule\\Design\\WeightedMethodCount");
            reveal_strlit("PHPMD\\Rule\\Naming\\ShortClassName");
            reveal_strlit("PHPMD\\Rule\\Naming\\LongClassName");
            reveal_strlit("PHPMD\\Rule\\Naming\\ShortVariable");
            reveal_strlit("PHPMD\\Rule\\Naming\\LongVariable");
            reveal_strlit("PHPMD\\Rule\\Naming\\ShortMethodName");
            reveal_strlit("PHPMD\\Rule\\Naming\\ConstantNamingConventions");
            assert("PHPMD\\Rule\\CyclomaticComplexity"@.len() != "PHPMD\\Rule\\Naming\\ConstantNamingConventions"@.len());
            assert("PHPMD\\Rule\\CyclomaticComplexity"@ != "PHPMD\\Rule\\Naming\\ConstantNamingConventions"@);
            assert("PHPMD\\Rule\\Design\\NpathComplexity"@.len() != "PHPMD\\Rule\\Naming\\ConstantNamingConventions"@.len());
            assert("PHPMD\\Rule\\Design\\NpathComplexity"@ != "PHPMD\\Rule\\Naming\\ConstantNamingConventions"@);
            assert("PHPMD\\Rule\\Design\\LongMethod"@.len() != "PHPMD\\Rule\\Naming\\ConstantNamingConventions"@.len());
            assert("PHPMD\\Rule\\Design\\LongMethod"@ != "PHPMD\\Rule\\Naming\\ConstantNamingConventions"@);
            assert("PHPMD\\Rule\\Design\\LongClass"@.len() != "PHPMD\\Rule\\Naming\\ConstantNamingConventions"@.len());
            assert("PHPMD\\Rule\\Design\\LongClass"@ != "PHPMD\\Rule\\Naming\\ConstantNamingConventions"@);
            assert("PHPMD\\Rule\\Design\\LongParameterList"@.len() != "PHPMD\\Rule\\Naming\\ConstantNamingConventions"@.len());
            assert("PHPMD\\Rule\\Design\\LongParameterList"@ != "PHPMD\\Rule\\Naming\\ConstantNamingConventions"@);
            assert("PHPMD\\Rule\\ExcessivePublicCount"@.len() != "PHPMD\\Rule\\Naming\\ConstantNamingConventions"@.len());
            assert("PHPMD\\Rule\\ExcessivePublicCount"@ != "PHPMD\\Rule\\Naming\\ConstantNamingConventions"@);
            assert("PHPMD\\Rule\\Design\\TooManyFields"@.len() != "PHPMD\\Rule\\Naming\\ConstantNamingConventions"@.len());
            assert("PHPMD\\Rule\\Design\\TooManyFields"@ != "PHPMD\\Rule\\Naming\\ConstantNamingConventions"@);
            assert("PHPMD\\Rule\\Design\\TooManyMethods"@.len() != "PHPMD\\Rule\\Naming\\ConstantNamingConventions"@.len());
            assert("PHPMD\\Rule\\Design\\TooManyMethods"@ != "PHPMD\\Rule\\Naming\\ConstantNamingConventions"@);
            assert("PHPMD\\Rule\\Design\\TooManyPublicMethods"@.len() != "PHPMD\\Rule\\Naming\\ConstantNamingConventions"@.len());
            assert("PHPMD\\Rule\\Design\\TooManyPublicMethods"@ != "PHPMD\\Rule\\Naming\\ConstantNamingConventions"@);
            assert("PHPMD\\Rule\\Design\\WeightedMethodCount"@.len() != "PHPMD\\Rule\\Naming\\ConstantNamingConventions"@.len());
            assert("PHPMD\\Rule\\Design\\WeightedMethodCount"@ != "PHPMD\\Rule\\Naming\\ConstantNamingConventions"@);
            assert("PHPMD\\Rule\\Naming\\ShortClassName"@.len() != "PHPMD\\Rule\\Naming\\ConstantNamingConventions"@.len());
            assert("PHPMD\\Rule\\Naming\\ShortClassName"@ != "PHPMD\\Rule\\Naming\\ConstantNamingConventions"@);
            assert("PHPMD\\Rule\\Naming\\LongClassName"@.len() != "PHPMD\\Rule\\Naming\\ConstantNamingConventions"@.len());
            assert("PHPMD\\Rule\\Naming\\LongClassName"@ != "PHPMD\\Rule\\Naming\\ConstantNamingConventions"@);
            assert("PHPMD\\Rule\\Naming\\ShortVariable"@.len() != "PHPMD\\Rule\\Naming\\ConstantNamingConventions"@.len());
            assert("PHPMD\\Rule\\Naming\\ShortVariable"@ != "PHPMD\\Rule\\Naming\\ConstantNamingConventions"@);
            assert("PHPMD\\Rule\\Naming\\LongVariable"@.len() != "PHPMD\\Rule\\Naming\\ConstantNamingConventions"@.len());
            assert("PHPMD\\Rule\\Naming\\LongVariable"@ != "PHPMD\\Rule\\Naming\\ConstantNamingConventions"@);
            assert("PHPMD\\Rule\\Naming\\ShortMethodName"@.len() != "PHPMD\\Rule\\Naming\\ConstantNamingConventions"@.len());
            assert("PHPMD\\Rule\\Naming\\ShortMethodName"@ != "PHPMD\\Rule\\Naming\\ConstantNamingConventions"@);
            assert(kind_of_class("PHPMD\\Rule\\Naming\\ConstantNamingConventions"@) == Some(RuleKind::ConstantNamingConventions));
        },
        RuleKind::BooleanGetMethodName => {
            reveal_strlit("PHPMD\\Rule\\CyclomaticComplexity");
            reveal_strlit("PHPMD\\Rule\\Design\\NpathComplexity");
            reveal_strlit("PHPMD\\Rule\\Design\\LongMethod");
            reveal_strlit("PHPMD\\Rule\\Design\\LongClass");
            reveal_strlit("PHPMD\\Rule\\Design\\LongParameterList");
            reveal_strlit("PHPMD\\Rule\\ExcessivePublicCount");
            reveal_strlit("PHPMD\\Rule\\Design\\TooManyFields");
            reveal_strlit("PHPMD\\Rule\\Design\\TooManyMethods");
            reveal_strlit("PHPMD\\Rule\\Design\\TooManyPublicMethods");
            reveal_strlit("PHPMD\\Rule\\Design\\WeightedMethodCount");
            reveal_strlit("PHPMD\\Rule\\Naming\\ShortClassName");
            reveal_strlit("PHPMD\\Rule\\Naming\\LongClassName");
            reveal_strlit("PHPMD\\Rule\\Naming\\ShortVariable");
            reveal_strlit("PHPMD\\Rule\\Naming\\LongVariable");
            reveal_strlit("PHPMD\\Rule\\Naming\\ShortMethodName");
            reveal_strlit("PHPMD\\Rule\\Naming\\ConstantNamingConventions");
            reveal_strlit("PHPMD\\Rule\\Naming\\BooleanGetMethodName");
            assert("PHPMD\\Rule\\CyclomaticComplexity"@.len() != "PHPMD\\Rule\\Naming\\BooleanGetMethodName"@.len());
            assert("PHPMD\\Rule\\CyclomaticComplexity"@ != "PHPMD\\Rule\\Naming\\BooleanGetMethodName"@);
            assert("PHPMD\\Rule\\Design\\NpathComplexity"@.len() != "PHPMD\\Rule\\Naming\\BooleanGetMethodName"@.len());
            assert("PHPMD\\Rule\\Design\\NpathComplexity"@ != "PHPMD\\Rule\\Naming\\BooleanGetMethodName"@);
            assert("PHPMD\\Rule\\Design\\LongMethod"@.len() != "PHPMD\\Rule\\Naming\\BooleanGetMethodName"@.len());
            assert("PHPMD\\Rule\\Design\\LongMethod"@ != "PHPMD\\Rule\\Naming\\BooleanGetMethodName"@);
            assert("PHPMD\\Rule\\Design\\LongClass"@.len() != "PHPMD\\Rule\\Naming\\BooleanGetMethodName"@.len());
            assert("PHPMD\\Rule\\Design\\LongClass"@ != "PHPMD\\Rule\\Naming\\BooleanGetMethodName"@);
            assert("PHPMD\\Rule\\Design\\LongParameterList"@.len() != "PHPMD\\Rule\\Naming\\BooleanGetMethodName"@.len());
            assert("PHPMD\\Rule\\Design\\LongParameterList"@ != "PHPMD\\Rule\\Naming\\BooleanGetMethodName"@);
            assert("PHPMD\\Rule\\ExcessivePublicCount"@.len() != "PHPMD\\Rule\\Naming\\BooleanGetMethodName"@.len());
            assert("PHPMD\\Rule\\ExcessivePublicCount"@ != "PHPMD\\Rule\\Naming\\BooleanGetMethodName"@);
            assert("PHPMD\\Rule\\Design\\TooManyFields"@.len() != "PHPMD\\Rule\\Naming\\BooleanGetMethodName"@.len());
            assert("PHPMD\\Rule\\Design\\TooManyFields"@ != "PHPMD\\Rule\\Naming\\BooleanGetMethodName"@);
            assert("PHPMD\\Rule\\Design\\TooManyMethods"@.len() != "PHPMD\\Rule\\Naming\\BooleanGetMethodName"@.len());
            assert("PHPMD\\Rule\\Design\\TooManyMethods"@ != "PHPMD\\Rule\\Naming\\BooleanGetMethodName"@);
            assert("PHPMD\\Rule\\Design\\TooManyPublicMethods"@[11] != "PHPMD\\Rule\\Naming\\BooleanGetMethodName"@[11]);
            assert("PHPMD\\Rule\\Design\\TooManyPublicMethods"@ != "PHPMD\\Rule\\Naming\\BooleanGetMethodName"@);
            assert("PHPMD\\Rule\\Design\\WeightedMethodCount"@.len() != "PHPMD\\Rule\\Naming\\BooleanGetMethodName"@.len());
            assert("PHPMD\\Rule\\Design\\WeightedMethodCount"@ != "PHPMD\\Rule\\Naming\\BooleanGetMethodName"@);
            assert("PHPMD\\Rule\\Naming\\ShortClassName"@.len() != "PHPMD\\Rule\\Naming\\BooleanGetMethodName"@.len());
            assert("PHPMD\\Rule\\Naming\\ShortClassName"@ != "PHPMD\\Rule\\Naming\\BooleanGetMethodName"@);
            assert("PHPMD\\Rule\\Naming\\LongClassName"@.len() != "PHPMD\\Rule\\Naming\\BooleanGetMethodName"@.len());
            assert("PHPMD\\Rule\\Naming\\LongClassName"@ != "PHPMD\\Rule\\Naming\\BooleanGetMethodName"@);
            assert("PHPMD\\Rule\\Naming\\ShortVariable"@.len() != "PHPMD\\Rule\\Naming\\BooleanGetMethodName"@.len());
            assert("PHPMD\\Rule\\Naming\\ShortVariable"@ != "PHPMD\\Rule\\Naming\\BooleanGetMethodName"@);
            assert("PHPMD\\Rule\\Naming\\LongVariable"@.len() != "PHPMD\\Rule\\Naming\\BooleanGetMethodName"@.len());
            assert("PHPMD\\Rule\\Naming\\LongVariable"@ != "PHPMD\\Rule\\Naming\\BooleanGetMethodName"@);
            assert("PHPMD\\Rule\\Naming\\ShortMethodName"@.len() != "PHPMD\\Rule\\Naming\\BooleanGetMethodName"@.len());
            assert("PHPMD\\Rule\\Naming\\ShortMethodName"@ != "PHPMD\\Rule\\Naming\\BooleanGetMethodName"@);
            assert("PHPMD\\Rule\\Naming\\ConstantNamingConventions"@.len() != "PHPMD\\Rule\\Naming\\BooleanGetMethodName"@.len());
            assert("PHPMD\\Rule\\Naming\\ConstantNamingConventions"@ != "PHPMD\\Rule\\Naming\\BooleanGetMethodName"@);
            assert(kind_of_class("PHPMD\\Rule\\Naming\\BooleanGetMethodName"@) == Some(RuleKind::BooleanGetMethodName));
        },
        RuleKind::UnusedPrivateField => {
            reveal_strlit("PHPMD\\Rule\\CyclomaticComplexity");
            reveal_strlit("PHPMD\\Rule\\Design\\NpathComplexity");
            reveal_strlit("PHPMD\\Rule\\Design\\LongMethod");
            reveal_strlit("PHPMD\\Rule\\Design\\LongClass");
            reveal_strlit("PHPMD\\Rule\\Design\\LongParameterList");
            reveal_strlit("PHPMD\\Rule\\ExcessivePublicCount");
            reveal_strlit("PHPMD\\Rule\\Design\\TooManyFields");
            reveal_strlit("PHPMD\\Rule\\Design\\TooManyMethods");
            reveal_strlit("PHPMD\\Rule\\Design\\TooManyPublicMethods");
            reveal_strlit("PHPMD\\Rule\\Design\\WeightedMethodCount");
            reveal_strlit("PHPMD\\Rule\\Naming\\ShortClassName");
            reveal_strlit("PHPMD\\Rule\\Naming\\LongClassName");
            reveal_strlit("PHPMD\\Rule\\Naming\\ShortVariable");
            reveal_strlit("PHPMD\\Rule\\Naming\\LongVariable");
            reveal_strlit("PHPMD\\Rule\\Naming\\ShortMethodName");
            reveal_strlit("PHPMD\\Rule\\Naming\\ConstantNamingConventions");
            reveal_strlit("PHPMD\\Rule\\Naming\\BooleanGetMethodName");
            reveal_strlit("PHPMD\\Rule\\UnusedPrivateField");
            assert("PHPMD\\Rule\\CyclomaticComplexity"@.len() != "PHPMD\\Rule\\UnusedPrivateField"@.len());
            assert("PHPMD\\Rule\\CyclomaticComplexity"@ != "PHPMD\\Rule\\UnusedPrivateField"@);
            assert("PHPMD\\Rule\\Design\\NpathComplexity"@.len() != "PHPMD\\Rule\\UnusedPrivateField"@.len());
            assert("PHPMD\\Rule\\Design\\NpathComplexity"@ != "PHPMD\\Rule\\UnusedPrivateField"@);
            assert("PHPMD\\Rule\\Design\\LongMethod"@.len() != "PHPMD\\Rule\\UnusedPrivateField"@.len());
            assert("PHPMD\\Rule\\Design\\LongMethod"@ != "PHPMD\\Rule\\UnusedPrivateField"@);
            assert("PHPMD\\Rule\\Design\\LongClass"@.len() != "PHPMD\\Rule\\UnusedPrivateField"@.len());
            assert("PHPMD\\Rule\\Design\\LongClass"@ != "PHPMD\\Rule\\UnusedPrivateField"@);
            assert("PHPMD\\Rule\\Design\\LongParameterList"@.len() != "PHPMD\\Rule\\UnusedPrivateField"@.len());
            assert("PHPMD\\Rule\\Design\\LongParameterList"@ != "PHPMD\\Rule\\UnusedPrivateField"@);
            assert("PHPMD\\Rule\\ExcessivePublicCount"@.len() != "PHPMD\\Rule\\UnusedPrivateField"@.len());
            assert("PHPMD\\Rule\\ExcessivePublicCount"@ != "PHPMD\\Rule\\UnusedPrivateField"@);
            assert("PHPMD\\Rule\\Design\\TooManyFields"@.len() != "PHPMD\\Rule\\UnusedPrivateField"@.len());
            assert("PHPMD\\Rule\\Design\\TooManyFields"@ != "PHPMD\\Rule\\UnusedPrivateField"@);
            assert("PHPMD\\Rule\\Design\\TooManyMethods"@.len() != "PHPMD\\Rule\\UnusedPrivateField"@.len());
            assert("PHPMD\\Rule\\Design\\TooManyMethods"@ != "PHPMD\\Rule\\UnusedPrivateField"@);
            assert("PHPMD\\Rule\\Design\\TooManyPublicMethods"@.len() != "PHPMD\\Rule\\UnusedPrivateField"@.len());
            assert("PHPMD\\Rule\\Design\\TooManyPublicMethods"@ != "PHPMD\\Rule\\UnusedPrivateField"@);
            assert("PHPMD\\Rule\\Design\\WeightedMethodCount"@.len() != "PHPMD\\Rule\\UnusedPrivateField"@.len());
            assert("PHPMD\\Rule\\Design\\WeightedMethodCount"@ != "PHPMD\\Rule\\UnusedPrivateField"@);
            assert("PHPMD\\Rule\\Naming\\ShortClassName"@.len() != "PHPMD\\Rule\\UnusedPrivateField"@.len());
            assert("PHPMD\\Rule\\Naming\\ShortClassName"@ != "PHPMD\\Rule\\UnusedPrivateField"@);
            assert("PHPMD\\Rule\\Naming\\LongClassName"@.len() != "PHPMD\\Rule\\UnusedPrivateField"@.len());
            assert("PHPMD\\Rule\\Naming\\LongClassName"@ != "PHPMD\\Rule\\UnusedPrivateField"@);
            assert("PHPMD\\Rule\\Naming\\ShortVariable"@.len() != "PHPMD\\Rule\\UnusedPrivateField"@.len());
            assert("PHPMD\\Rule\\Naming\\ShortVariable"@ != "PHPMD\\Rule\\UnusedPrivateField"@);
            assert("PHPMD\\Rule\\Naming\\LongVariable"@.len() != "PHPMD\\Rule\\UnusedPrivateField"@.len());
            assert("PHPMD\\Rule\\Naming\\LongVariable"@ != "PHPMD\\Rule\\UnusedPrivateField"@);
            assert("PHPMD\\Rule\\Naming\\ShortMethodName"@.len() != "PHPMD\\Rule\\UnusedPrivateField"@.len());
            assert("PHPMD\\Rule\\Naming\\ShortMethodName"@ != "PHPMD\\Rule\\UnusedPrivateField"@);
            assert("PHPMD\\Rule\\Naming\\ConstantNamingConventions"@.len() != "PHPMD\\Rule\\UnusedPrivateField"@.len());
            assert("PHPMD\\Rule\\Naming\\ConstantNamingConventions"@ != "PHPMD\\Rule\\UnusedPrivateField"@);
            assert("PHPMD\\Rule\\Naming\\BooleanGetMethodName"@.len() != "PHPMD\\Rule\\UnusedPrivateField"@.len());
            assert("PHPMD\\Rule\\Naming\\BooleanGetMethodName"@ != "PHPMD\\Rule\\UnusedPrivateField"@);
            assert(kind_of_class("PHPMD\\Rule\\UnusedPrivateField"@) == Some(RuleKind::UnusedPrivateField));
        },
        RuleKind::UnusedLocalVariable => {
            reveal_strlit("PHPMD\\Rule\\CyclomaticComplexity");
            reveal_strlit("PHPMD\\Rule\\Design\\NpathComplexity");
            reveal_strlit("PHPMD\\Rule\\Design\\LongMethod");
            reveal_strlit("PHPMD\\Rule\\Design\\LongClass");
            reveal_strlit("PHPMD\\Rule\\Design\\LongParameterList");
            reveal_strlit("PHPMD\\Rule\\ExcessivePublicCount");
            reveal_strlit("PHPMD\\Rule\\Design\\TooManyFields");
            reveal_strlit("PHPMD\\Rule\\Design\\TooManyMethods");
            reveal_strlit("PHPMD\\Rule\\Design\\TooManyPublicMethods");
            reveal_strlit("PHPMD\\Rule\\Design\\WeightedMethodCount");
            reveal_strlit("PHPMD\\Rule\\Naming\\ShortClassName");
            reveal_strlit("PHPMD\\Rule\\Naming\\LongClassName");
            reveal_strlit("PHPMD\\Rule\\Naming\\ShortVariable");
            reveal_strlit("PHPMD\\Rule\\Naming\\LongVariable");
            reveal_strlit("PHPMD\\Rule\\Naming\\ShortMethodName");
            reveal_strlit("PHPMD\\Rule\\Naming\\ConstantNamingConventions");
            reveal_strlit("PHPMD\\Rule\\Naming\\BooleanGetMethodName");
            reveal_strlit("PHPMD\\Rule\\UnusedPrivateField");
            reveal_strlit("PHPMD\\Rule\\UnusedLocalVariable");
            assert("PHPMD\\Rule\\CyclomaticComplexity"@.len() != "PHPMD\\Rule\\UnusedLocalVariable"@.len());
            assert("PHPMD\\Rule\\CyclomaticComplexity"@ != "PHPMD\\Rule\\UnusedLocalVariable"@);
            assert("PHPMD\\Rule\\Design\\NpathComplexity"@.len() != "PHPMD\\Rule\\UnusedLocalVariable"@.len());
            assert("PHPMD\\Rule\\Design\\NpathComplexity"@ != "PHPMD\\Rule\\UnusedLocalVariable"@);
            assert("PHPMD\\Rule\\Design\\LongMethod"@.len() != "PHPMD\\Rule\\UnusedLocalVariable"@.len());
            assert("PHPMD\\Rule\\Design\\LongMethod"@ != "PHPMD\\Rule\\UnusedLocalVariable"@);
            assert("PHPMD\\Rule\\Design\\LongClass"@.len() != "PHPMD\\Rule\\UnusedLocalVariable"@.len());
            assert("PHPMD\\Rule\\Design\\LongClass"@ != "PHPMD\\Rule\\UnusedLocalVariable"@);
            assert("PHPMD\\Rule\\Design\\LongParameterList"@.len() != "PHPMD\\Rule\\UnusedLocalVariable"@.len());
            assert("PHPMD\\Rule\\Design\\LongParameterList"@ != "PHPMD\\Rule\\UnusedLocalVariable"@);
            assert("PHPMD\\Rule\\ExcessivePublicCount"@.len() != "PHPMD\\Rule\\UnusedLocalVariable"@.len());
            assert("PHPMD\\Rule\\ExcessivePublicCount"@ != "PHPMD\\Rule\\UnusedLocalVariable"@);
            assert("PHPMD\\Rule\\Design\\TooManyFields"@.len() != "PHPMD\\Rule\\UnusedLocalVariable"@.len());
            assert("PHPMD\\Rule\\Design\\TooManyFields"@ != "PHPMD\\Rule\\UnusedLocalVariable"@);
            assert("PHPMD\\Rule\\Design\\TooManyMethods"@.len() != "PHPMD\\Rule\\UnusedLocalVariable"@.len());
            assert("PHPMD\\Rule\\Design\\TooManyMethods"@ != "PHPMD\\Rule\\UnusedLocalVariable"@);
            assert("PHPMD\\Rule\\Design\\TooManyPublicMethods"@.len() != "PHPMD\\Rule\\UnusedLocalVariable"@.len());
            assert("PHPMD\\Rule\\Design\\TooManyPublicMethods"@ != "PHPMD\\Rule\\UnusedLocalVariable"@);
            assert("PHPMD\\Rule\\Design\\WeightedMethodCount"@.len() != "PHPMD\\Rule\\UnusedLocalVariable"@.len());
            assert("PHPMD\\Rule\\Design\\WeightedMethodCount"@ != "PHPMD\\Rule\\UnusedLocalVariable"@);
            assert("PHPMD\\Rule\\Naming\\ShortClassName"@.len() != "PHPMD\\Rule\\UnusedLocalVariable"@.len());
            assert("PHPMD\\Rule\\Naming\\ShortClassName"@ != "PHPMD\\Rule\\UnusedLocalVariable"@);
            assert("PHPMD\\Rule\\Naming\\LongClassName"@.len() != "PHPMD\\Rule\\UnusedLocalVariable"@.len());
            assert("PHPMD\\Rule\\Naming\\LongClassName"@ != "PHPMD\\Rule\\UnusedLocalVariable"@);
            assert("PHPMD\\Rule\\Naming\\ShortVariable"@.len() != "PHPMD\\Rule\\UnusedLocalVariable"@.len());
            assert("PHPMD\\Rule\\Naming\\ShortVariable"@ != "PHPMD\\Rule\\UnusedLocalVariable"@);
            assert("PHPMD\\Rule\\Naming\\LongVariable"@[11] != "PHPMD\\Rule\\UnusedLocalVariable"@[11]);
            assert("PHPMD\\Rule\\Naming\\LongVariable"@ != "PHPMD\\Rule\\UnusedLocalVariable"@);
            assert("PHPMD\\Rule\\Naming\\ShortMethodName"@.len() != "PHPMD\\Rule\\UnusedLocalVariable"@.len());
            assert("PHPMD\\Rule\\Naming\\ShortMethodName"@ != "PHPMD\\Rule\\UnusedLocalVariable"@);
            assert("PHPMD\\Rule\\Naming\\ConstantNamingConventions"@.len() != "PHPMD\\Rule\\UnusedLocalVariable"@.len());
            assert("PHPMD\\Rule\\Naming\\ConstantNamingConventions"@ != "PHPMD\\Rule\\UnusedLocalVariable"@);
            assert("PHPMD\\Rule\\Naming\\BooleanGetMethodName"@.len() != "PHPMD\\Rule\\UnusedLocalVariable"@.len());
            assert("PHPMD\\Rule\\Naming\\BooleanGetMethodName"@ != "PHPMD\\Rule\\UnusedLocalVariable"@);
            assert("PHPMD\\Rule\\UnusedPrivateField"@.len() != "PHPMD\\Rule\\UnusedLocalVariable"@.len());
            assert("PHPMD\\Rule\\UnusedPrivateField"@ != "PHPMD\\Rule\\UnusedLocalVariable"@);
            assert(kind_of_class("PHPMD\\Rule\\UnusedLocalVariable"@) == Some(RuleKind::UnusedLocalVariable));
        },
        RuleKind::UnusedPrivateMethod => {
            reveal_strlit("PHPMD\\Rule\\CyclomaticComplexity");
            reveal_strlit("PHPMD\\Rule\\Design\\NpathComplexity");
            reveal_strlit("PHPMD\\Rule\\Design\\LongMethod");
            reveal_strlit("PHPMD\\Rule\\Design\\LongClass");
            reveal_strlit("PHPMD\\Rule\\Design\\LongParameterList");
            reveal_strlit("PHPMD\\Rule\\ExcessivePublicCount");
            reveal_strlit("PHPMD\\Rule\\Design\\TooManyFields");
            reveal_strlit("PHPMD\\Rule\\Design\\TooManyMethods");
            reveal_strlit("PHPMD\\Rule\\Design\\TooManyPublicMethods");
            reveal_strlit("PHPMD\\Rule\\Design\\WeightedMethodCount");
            reveal_strlit("PHPMD\\Rule\\Naming\\ShortClassName");
            reveal_strlit("PHPMD\\Rule\\Naming\\LongClassName");
            reveal_strlit("PHPMD\\Rule\\Naming\\ShortVariable");
            reveal_strlit("PHPMD\\Rule\\Naming\\LongVariable");
            reveal_strlit("PHPMD\\Rule\\Naming\\ShortMethodName");
            reveal_strlit("PHPMD\\Rule\\Naming\\ConstantNamingConventions");
            reveal_strlit("PHPMD\\Rule\\Naming\\BooleanGetMethodName");
            reveal_strlit("PHPMD\\Rule\\UnusedPrivateField");
            reveal_strlit("PHPMD\\Rule\\UnusedLocalVariable");
            reveal_strlit("PHPMD\\Rule\\UnusedPrivateMethod");
            assert("PHPMD\\Rule\\CyclomaticComplexity"@.len() != "PHPMD\\Rule\\UnusedPrivateMethod"@.len());
            assert("PHPMD\\Rule\\CyclomaticComplexity"@ != "PHPMD\\Rule\\UnusedPrivateMethod"@);
            assert("PHPMD\\Rule\\Design\\NpathComplexity"@.len() != "PHPMD\\Rule\\UnusedPrivateMethod"@.len());
            assert("PHPMD\\Rule\\Design\\NpathComplexity"@ != "PHPMD\\Rule\\UnusedPrivateMethod"@);
            assert("PHPMD\\Rule\\Design\\LongMethod"@.len() != "PHPMD\\Rule\\UnusedPrivateMethod"@.len());
            assert("PHPMD\\Rule\\Design\\LongMethod"@ != "PHPMD\\Rule\\UnusedPrivateMethod"@);
            assert("PHPMD\\Rule\\Design\\LongClass"@.len() != "PHPMD\\Rule\\UnusedPrivateMethod"@.len());
            assert("PHPMD\\Rule\\Design\\LongClass"@ != "PHPMD\\Rule\\UnusedPrivateMethod"@);
            assert("PHPMD\\Rule\\Design\\LongParameterList"@.len() != "PHPMD\\Rule\\UnusedPrivateMethod"@.len());
            assert("PHPMD\\Rule\\Design\\LongParameterList"@ != "PHPMD\\Rule\\UnusedPrivateMethod"@);
            assert("PHPMD\\Rule\\ExcessivePublicCount"@.len() != "PHPMD\\Rule\\UnusedPrivateMethod"@.len());
            assert("PHPMD\\Rule\\ExcessivePublicCount"@ != "PHPMD\\Rule\\UnusedPrivateMethod"@);
            assert("PHPMD\\Rule\\Design\\TooManyFields"@.len() != "PHPMD\\Rule\\UnusedPrivateMethod"@.len());
            assert("PHPMD\\Rule\\Design\\TooManyFields"@ != "PHPMD\\Rule\\UnusedPrivateMethod"@);
            assert("PHPMD\\Rule\\Design\\TooManyMethods"@.len() != "PHPMD\\Rule\\UnusedPrivateMethod"@.len());
            assert("PHPMD\\Rule\\Design\\TooManyMethods"@ != "PHPMD\\Rule\\UnusedPrivateMethod"@);
            assert("PHPMD\\Rule\\Design\\TooManyPublicMethods"@.len() != "PHPMD\\Rule\\UnusedPrivateMethod"@.len());
            assert("PHPMD\\Rule\\Design\\TooManyPublicMethods"@ != "PHPMD\\Rule\\UnusedPrivateMethod"@);
            assert("PHPMD\\Rule\\Design\\WeightedMethodCount"@.len() != "PHPMD\\Rule\\UnusedPrivateMethod"@.len());
            assert("PHPMD\\Rule\\Design\\WeightedMethodCount"@ != "PHPMD\\Rule\\UnusedPrivateMethod"@);
            assert("PHPMD\\Rule\\Naming\\ShortClassName"@.len() != "PHPMD\\Rule\\UnusedPrivateMethod"@.len());
            assert("PHPMD\\Rule\\Naming\\ShortClassName"@ != "PHPMD\\Rule\\UnusedPrivateMethod"@);
            assert("PHPMD\\Rule\\Naming\\LongClassName"@.len() != "PHPMD\\Rule\\UnusedPrivateMethod"@.len());
            assert("PHPMD\\Rule\\Naming\\LongClassName"@ != "PHPMD\\Rule\\UnusedPrivateMethod"@);
            assert("PHPMD\\Rule\\Naming\\ShortVariable"@.len() != "PHPMD\\Rule\\UnusedPrivateMethod"@.len());
            assert("PHPMD\\Rule\\Naming\\ShortVariable"@ != "PHPMD\\Rule\\UnusedPrivateMethod"@);
            assert("PHPMD\\Rule\\Naming\\LongVariable"@[11] != "PHPMD\\Rule\\UnusedPrivateMethod"@[11]);
            assert("PHPMD\\Rule\\Naming\\LongVariable"@ != "PHPMD\\Rule\\UnusedPrivateMethod"@);
            assert("PHPMD\\Rule\\Naming\\ShortMethodName"@.len() != "PHPMD\\Rule\\UnusedPrivateMethod"@.len());
            assert("PHPMD\\Rule\\Naming\\ShortMethodName"@ != "PHPMD\\Rule\\UnusedPrivateMethod"@);
            assert("PHPMD\\Rule\\Naming\\ConstantNamingConventions"@.len() != "PHPMD\\Rule\\UnusedPrivateMethod"@.len());
            assert("PHPMD\\Rule\\Naming\\ConstantNamingConventions"@ != "PHPMD\\Rule\\UnusedPrivateMethod"@);
            assert("PHPMD\\Rule\\Naming\\BooleanGetMethodName"@.len() != "PHPMD\\Rule\\UnusedPrivateMethod"@.len());
            assert("PHPMD\\Rule\\Naming\\BooleanGetMethodName"@ != "PHPMD\\Rule\\UnusedPrivateMethod"@);
            assert("PHPMD\\Rule\\UnusedPrivateField"@.len() != "PHPMD\\Rule\\UnusedPrivateMethod"@.len());
            assert("PHPMD\\Rule\\UnusedPrivateField"@ != "PHPMD\\Rule\\UnusedPrivateMethod"@);
            assert("PHPMD\\Rule\\UnusedLocalVariable"@[17] != "PHPMD\\Rule\\UnusedPrivateMethod"@[17]);
            assert("PHPMD\\Rule\\UnusedLocalVariable"@ != "PHPMD\\Rule\\UnusedPrivateMethod"@);
            assert(kind_of_class("PHPMD\\Rule\\UnusedPrivateMethod"@) == Some(RuleKind::UnusedPrivateMethod));
        },
        RuleKind::UnusedFormalParameter => {
            reveal_strlit("PHPMD\\Rule\\CyclomaticComplexity");
            reveal_strlit("PHPMD\\Rule\\Design\\NpathComplexity");
            reveal_strlit("PHPMD\\Rule\\Design\\LongMethod");
            reveal_strlit("PHPMD\\Rule\\Design\\LongClass");
            reveal_strlit("PHPMD\\Rule\\Design\\LongParameterList");
            reveal_strlit("PHPMD\\Rule\\ExcessivePublicCount");
            reveal_strlit("PHPMD\\Rule\\Design\\TooManyFields");
            reveal_strlit("PHPMD\\Rule\\Design\\TooManyMethods");
            reveal_strlit("PHPMD\\Rule\\Design\\TooManyPublicMethods");
            reveal_strlit("PHPMD\\Rule\\Design\\WeightedMethodCount");
            reveal_strlit("PHPMD\\Rule\\Naming\\ShortClassName");
            reveal_strlit("PHPMD\\Rule\\Naming\\LongClassName");
            reveal_strlit("PHPMD\\Rule\\Naming\\ShortVariable");
            reveal_strlit("PHPMD\\Rule\\Naming\\LongVariable");
            reveal_strlit("PHPMD\\Rule\\Naming\\ShortMethodName");
            reveal_strlit("PHPMD\\Rule\\Naming\\ConstantNamingConventions");
            reveal_strlit("PHPMD\\Rule\\Naming\\BooleanGetMethodName");
            reveal_strlit("PHPMD\\Rule\\UnusedPrivateField");
            reveal_strlit("PHPMD\\Rule\\UnusedLocalVariable");
            reveal_strlit("PHPMD\\Rule\\UnusedPrivateMethod");
            reveal_strlit("PHPMD\\Rule\\UnusedFormalParameter");
            assert("PHPMD\\Rule\\CyclomaticComplexity"@.len() != "PHPMD\\Rule\\UnusedFormalParameter"@.len());
            assert("PHPMD\\Rule\\CyclomaticComplexity"@ != "PHPMD\\Rule\\UnusedFormalParameter"@);
            assert("PHPMD\\Rule\\Design\\NpathComplexity"@.len() != "PHPMD\\Rule\\UnusedFormalParameter"@.len());
            assert("PHPMD\\Rule\\Design\\NpathComplexity"@ != "PHPMD\\Rule\\UnusedFormalParameter"@);
            assert("PHPMD\\Rule\\Design\\LongMethod"@.len() != "PHPMD\\Rule\\UnusedFormalParameter"@.len());
            assert("PHPMD\\Rule\\Design\\LongMethod"@ != "PHPMD\\Rule\\UnusedFormalParameter"@);
            assert("PHPMD\\Rule\\Design\\LongClass"@.len() != "PHPMD\\Rule\\UnusedFormalParameter"@.len());
            assert("PHPMD\\Rule\\Design\\LongClass"@ != "PHPMD\\Rule\\UnusedFormalParameter"@);
            assert("PHPMD\\Rule\\Design\\LongParameterList"@.len() != "PHPMD\\Rule\\UnusedFormalParameter"@.len());
            assert("PHPMD\\Rule\\Design\\LongParameterList"@ != "PHPMD\\Rule\\UnusedFormalParameter"@);
            assert("PHPMD\\Rule\\ExcessivePublicCount"@.len() != "PHPMD\\Rule\\UnusedFormalParameter"@.len());
            assert("PHPMD\\Rule\\ExcessivePublicCount"@ != "PHPMD\\Rule\\UnusedFormalParameter"@);
            assert("PHPMD\\Rule\\Design\\TooManyFields"@.len() != "PHPMD\\Rule\\UnusedFormalParameter"@.len());
            assert("PHPMD\\Rule\\Design\\TooManyFields"@ != "PHPMD\\Rule\\UnusedFormalParameter"@);
            assert("PHPMD\\Rule\\Design\\TooManyMethods"@[11] != "PHPMD\\Rule\\UnusedFormalParameter"@[11]);
            assert("PHPMD\\Rule\\Design\\TooManyMethods"@ != "PHPMD\\Rule\\UnusedFormalParameter"@);
            assert("PHPMD\\Rule\\Design\\TooManyPublicMethods"@.len() != "PHPMD\\Rule\\UnusedFormalParameter"@.len());
            assert("PHPMD\\Rule\\Design\\TooManyPublicMethods"@ != "PHPMD\\Rule\\UnusedFormalParameter"@);
            assert("PHPMD\\Rule\\Design\\WeightedMethodCount"@.len() != "PHPMD\\Rule\\UnusedFormalParameter"@.len());
            assert("PHPMD\\Rule\\Design\\WeightedMethodCount"@ != "PHPMD\\Rule\\UnusedFormalParameter"@);
            assert("PHPMD\\Rule\\Naming\\ShortClassName"@[11] != "PHPMD\\Rule\\UnusedFormalParameter"@[11]);
            assert("PHPMD\\Rule\\Naming\\ShortClassName"@ != "PHPMD\\Rule\\UnusedFormalParameter"@);
            assert("PHPMD\\Rule\\Naming\\LongClassName"@.len() != "PHPMD\\Rule\\UnusedFormalParameter"@.len());
            assert("PHPMD\\Rule\\Naming\\LongClassName"@ != "PHPMD\\Rule\\UnusedFormalParameter"@);
            assert("PHPMD\\Rule\\Naming\\ShortVariable"@.len() != "PHPMD\\Rule\\UnusedFormalParameter"@.len());
            assert("PHPMD\\Rule\\Naming\\ShortVariable"@ != "PHPMD\\Rule\\UnusedFormalParameter"@);
            assert("PHPMD\\Rule\\Naming\\LongVariable"@.len() != "PHPMD\\Rule\\UnusedFormalParameter"@.len());
            assert("PHPMD\\Rule\\Naming\\LongVariable"@ != "PHPMD\\Rule\\UnusedFormalParameter"@);
            assert("PHPMD\\Rule\\Naming\\ShortMethodName"@.len() != "PHPMD\\Rule\\UnusedFormalParameter"@.len());
            assert("PHPMD\\Rule\\Naming\\ShortMethodName"@ != "PHPMD\\Rule\\UnusedFormalParameter"@);
            assert("PHPMD\\Rule\\Naming\\ConstantNamingConventions"@.len() != "PHPMD\\Rule\\UnusedFormalParameter"@.len());
            assert("PHPMD\\Rule\\Naming\\ConstantNamingConventions"@ != "PHPMD\\Rule\\UnusedFormalParameter"@);
            assert("PHPMD\\Rule\\Naming\\BooleanGetMethodName"@.len() != "PHPMD\\Rule\\UnusedFormalParameter"@.len());
            assert("PHPMD\\Rule\\Naming\\BooleanGetMethodName"@ != "PHPMD\\Rule\\UnusedFormalParameter"@);
            assert("PHPMD\\Rule\\UnusedPrivateField"@.len() != "PHPMD\\Rule\\UnusedFormalParameter"@.len());
            assert("PHPMD\\Rule\\UnusedPrivateField"@ != "PHPMD\\Rule\\UnusedFormalParameter"@);
            assert("PHPMD\\Rule\\UnusedLocalVariable"@.len() != "PHPMD\\Rule\\UnusedFormalParameter"@.len());
            assert("PHPMD\\Rule\\UnusedLocalVariable"@ != "PHPMD\\Rule\\UnusedFormalParameter"@);
            assert("PHPMD\\Rule\\UnusedPrivateMethod"@.len() != "PHPMD\\Rule\\UnusedFormalParameter"@.len());
            assert("PHPMD\\Rule\\UnusedPrivateMethod"@ != "PHPMD\\Rule\\UnusedFormalParameter"@);
            assert(kind_of_class("PHPMD\\Rule\\UnusedFormalParameter"@) == Some(RuleKind::UnusedFormalParameter));
        },
        RuleKind::BooleanArgumentFlag => {
            reveal_strlit("PHPMD\\Rule\\CyclomaticComplexity");
            reveal_strlit("PHPMD\\Rule\\Design\\NpathComplexity");
            reveal_strlit("PHPMD\\Rule\\Design\\LongMethod");
            reveal_strlit("PHPMD\\Rule\\Design\\LongClass");
            reveal_strlit("PHPMD\\Rule\\Design\\LongParameterList");
            reveal_strlit("PHPMD\\Rule\\ExcessivePublicCount");
            reveal_strlit("PHPMD\\Rule\\Design\\TooManyFields");
            reveal_strlit("PHPMD\\Rule\\Design\\TooManyMethods");
            reveal_strlit("PHPMD\\Rule\\Design\\TooManyPublicMethods");
            reveal_strlit("PHPMD\\Rule\\Design\\WeightedMethodCount");
            reveal_strlit("PHPMD\\Rule\\Naming\\ShortClassName");
            reveal_strlit("PHPMD\\Rule\\Naming\\LongClassName");
            reveal_strlit("PHPMD\\Rule\\Naming\\ShortVariable");
            reveal_strlit("PHPMD\\Rule\\Naming\\LongVariable");
            reveal_strlit("PHPMD\\Rule\\Naming\\ShortMethodName");
            reveal_strlit("PHPMD\\Rule\\Naming\\ConstantNamingConventions");
            reveal_strlit("PHPMD\\Rule\\Naming\\BooleanGetMethodName");
            reveal_strlit("PHPMD\\Rule\\UnusedPrivateField");
            reveal_strlit("PHPMD\\Rule\\UnusedLocalVariable");
            reveal_strlit("PHPMD\\Rule\\UnusedPrivateMethod");
            reveal_strlit("PHPMD\\Rule\\UnusedFormalParameter");
            reveal_strlit("PHPMD\\Rule\\CleanCode\\BooleanArgumentFlag");
            assert("PHPMD\\Rule\\CyclomaticComplexity"@.len() != "PHPMD\\Rule\\CleanCode\\BooleanArgumentFlag"@.len());
            assert("PHPMD\\Rule\\CyclomaticComplexity"@ != "PHPMD\\Rule\\CleanCode\\BooleanArgumentFlag"@);
            assert("PHPMD\\Rule\\Design\\NpathComplexity"@.len() != "PHPMD\\Rule\\CleanCode\\BooleanArgumentFlag"@.len());
            assert("PHPMD\\Rule\\Design\\NpathComplexity"@ != "PHPMD\\Rule\\CleanCode\\BooleanArgumentFlag"@);
            assert("PHPMD\\Rule\\Design\\LongMethod"@.len() != "PHPMD\\Rule\\CleanCode\\BooleanArgumentFlag"@.len());
            assert("PHPMD\\Rule\\Design\\LongMethod"@ != "PHPMD\\Rule\\CleanCode\\BooleanArgumentFlag"@);
            assert("PHPMD\\Rule\\Design\\LongClass"@.len() != "PHPMD\\Rule\\CleanCode\\BooleanArgumentFlag"@.len());
            assert("PHPMD\\Rule\\Design\\LongClass"@ != "PHPMD\\Rule\\CleanCode\\BooleanArgumentFlag"@);
            assert("PHPMD\\Rule\\Design\\LongParameterList"@.len() != "PHPMD\\Rule\\CleanCode\\BooleanArgumentFlag"@.len());
            assert("PHPMD\\Rule\\Design\\LongParameterList"@ != "PHPMD\\Rule\\CleanCode\\BooleanArgumentFlag"@);
            assert("PHPMD\\Rule\\ExcessivePublicCount"@.len() != "PHPMD\\Rule\\CleanCode\\BooleanArgumentFlag"@.len());
            assert("PHPMD\\Rule\\ExcessivePublicCount"@ != "PHPMD\\Rule\\CleanCode\\BooleanArgumentFlag"@);
            assert("PHPMD\\Rule\\Design\\TooManyFields"@.len() != "PHPMD\\Rule\\CleanCode\\BooleanArgumentFlag"@.len());
            assert("PHPMD\\Rule\\Design\\TooManyFields"@ != "PHPMD\\Rule\\CleanCode\\BooleanArgumentFlag"@);
            assert("PHPMD\\Rule\\Design\\TooManyMethods"@.len() != "PHPMD\\Rule\\CleanCode\\BooleanArgumentFlag"@.len());
            assert("PHPMD\\Rule\\Design\\TooManyMethods"@ != "PHPMD\\Rule\\CleanCode\\BooleanArgumentFlag"@);
            assert("PHPMD\\Rule\\Design\\TooManyPublicMethods"@.len() != "PHPMD\\Rule\\CleanCode\\BooleanArgumentFlag"@.len());
            assert("PHPMD\\Rule\\Design\\TooManyPublicMethods"@ != "PHPMD\\Rule\\CleanCode\\BooleanArgumentFlag"@);
            assert("PHPMD\\Rule\\Design\\WeightedMethodCount"@.len() != "PHPMD\\Rule\\CleanCode\\BooleanArgumentFlag"@.len());
            assert("PHPMD\\Rule\\Design\\WeightedMethodCount"@ != "PHPMD\\Rule\\CleanCode\\BooleanArgumentFlag"@);
            assert("PHPMD\\Rule\\Naming\\ShortClassName"@.len() != "PHPMD\\Rule\\CleanCode\\BooleanArgumentFlag"@.len());
            assert("PHPMD\\Rule\\Naming\\ShortClassName"@ != "PHPMD\\Rule\\CleanCode\\BooleanArgumentFlag"@);
            assert("PHPMD\\Rule\\Naming\\LongClassName"@.len() != "PHPMD\\Rule\\CleanCode\\BooleanArgumentFlag"@.len());
            assert("PHPMD\\Rule\\Naming\\LongClassName"@ != "PHPMD\\Rule\\CleanCode\\BooleanArgumentFlag"@);
            assert("PHPMD\\Rule\\Naming\\ShortVariable"@.len() != "PHPMD\\Rule\\CleanCode\\BooleanArgumentFlag"@.len());
            assert("PHPMD\\Rule\\Naming\\ShortVariable"@ != "PHPMD\\Rule\\CleanCode\\BooleanArgumentFlag"@);
            assert("PHPMD\\Rule\\Naming\\LongVariable"@.len() != "PHPMD\\Rule\\CleanCode\\BooleanArgumentFlag"@.len());
            assert("PHPMD\\Rule\\Naming\\LongVariable"@ != "PHPMD\\Rule\\CleanCode\\BooleanArgumentFlag"@);
            assert("PHPMD\\Rule\\Naming\\ShortMethodName"@.len() != "PHPMD\\Rule\\CleanCode\\BooleanArgumentFlag"@.len());
            assert("PHPMD\\Rule\\Naming\\ShortMethodName"@ != "PHPMD\\Rule\\CleanCode\\BooleanArgumentFlag"@);
            assert("PHPMD\\Rule\\Naming\\ConstantNamingConventions"@.len() != "PHPMD\\Rule\\CleanCode\\BooleanArgumentFlag"@.len());
            assert("PHPMD\\Rule\\Naming\\ConstantNamingConventions"@ != "PHPMD\\Rule\\CleanCode\\BooleanArgumentFlag"@);
            assert("PHPMD\\Rule\\Naming\\BooleanGetMethodName"@.len() != "PHPMD\\Rule\\CleanCode\\BooleanArgumentFlag"@.len());
            assert("PHPMD\\Rule\\Naming\\BooleanGetMethodName"@ != "PHPMD\\Rule\\CleanCode\\BooleanArgumentFlag"@);
            assert("PHPMD\\Rule\\UnusedPrivateField"@.len() != "PHPMD\\Rule\\CleanCode\\BooleanArgumentFlag"@.len());
            assert("PHPMD\\Rule\\UnusedPrivateField"@ != "PHPMD\\Rule\\CleanCode\\BooleanArgumentFlag"@);
            assert("PHPMD\\Rule\\UnusedLocalVariable"@.len() != "PHPMD\\Rule\\CleanCode\\BooleanArgumentFlag"@.len());
            assert("PHPMD\\Rule\\UnusedLocalVariable"@ != "PHPMD\\Rule\\CleanCode\\BooleanArgumentFlag"@);
            assert("PHPMD\\Rule\\UnusedPrivateMethod"@.len() != "PHPMD\\Rule\\CleanCode\\BooleanArgumentFlag"@.len());
            assert("PHPMD\\Rule\\UnusedPrivateMethod"@ != "PHPMD\\Rule\\CleanCode\\BooleanArgumentFlag"@);
            assert("PHPMD\\Rule\\UnusedFormalParameter"@.len() != "PHPMD\\Rule\\CleanCode\\BooleanArgumentFlag"@.len());
            assert("PHPMD\\Rule\\UnusedFormalParameter"@ != "PHPMD\\Rule\\CleanCode\\BooleanArgumentFlag"@);
            assert(kind_of_class("PHPMD\\Rule\\CleanCode\\BooleanArgumentFlag"@) == Some(RuleKind::BooleanArgumentFlag));
        },
        RuleKind::ElseExpression => {
            reveal_strlit("PHPMD\\Rule\\CyclomaticComplexity");
            reveal_strlit("PHPMD\\Rule\\Design\\NpathComplexity");
            reveal_strlit("PHPMD\\Rule\\Design\\LongMethod");
            reveal_strlit("PHPMD\\Rule\\Design\\LongClass");
            reveal_strlit("PHPMD\\Rule\\Design\\LongParameterList");
            reveal_strlit("PHPMD\\Rule\\ExcessivePublicCount");
            reveal_strlit("PHPMD\\Rule\\Design\\TooManyFields");
            reveal_strlit("PHPMD\\Rule\\Design\\TooManyMethods");
            reveal_strlit("PHPMD\\Rule\\Design\\TooManyPublicMethods");
            reveal_strlit("PHPMD\\Rule\\Design\\WeightedMethodCount");
            reveal_strlit("PHPMD\\Rule\\Naming\\ShortClassName");
            reveal_strlit("PHPMD\\Rule\\Naming\\LongClassName");
            reveal_strlit("PHPMD\\Rule\\Naming\\ShortVariable");
            reveal_strlit("PHPMD\\Rule\\Naming\\LongVariable");
            reveal_strlit("PHPMD\\Rule\\Naming\\ShortMethodName");
            reveal_strlit("PHPMD\\Rule\\Naming\\ConstantNamingConventions");
            reveal_strlit("PHPMD\\Rule\\Naming\\BooleanGetMethodName");
            reveal_strlit("PHPMD\\Rule\\UnusedPrivateField");
            reveal_strlit("PHPMD\\Rule\\UnusedLocalVariable");
            reveal_strlit("PHPMD\\Rule\\UnusedPrivateMethod");
            reveal_strlit("PHPMD\\Rule\\UnusedFormalParameter");
            reveal_strlit("PHPMD\\Rule\\CleanCode\\BooleanArgumentFlag");
            reveal_strlit("PHPMD\\Rule\\CleanCode\\ElseExpression");
            assert("PHPMD\\Rule\\CyclomaticComplexity"@.len() != "PHPMD\\Rule\\CleanCode\\ElseExpression"@.len());
            assert("PHPMD\\Rule\\CyclomaticComplexity"@ != "PHPMD\\Rule\\CleanCode\\ElseExpression"@);
            assert("PHPMD\\Rule\\Design\\NpathComplexity"@.len() != "PHPMD\\Rule\\CleanCode\\ElseExpression"@.len());
            assert("PHPMD\\Rule\\Design\\NpathComplexity"@ != "PHPMD\\Rule\\CleanCode\\ElseExpression"@);
            assert("PHPMD\\Rule\\Design\\LongMethod"@.len() != "PHPMD\\Rule\\CleanCode\\ElseExpression"@.len());
            assert("PHPMD\\Rule\\Design\\LongMethod"@ != "PHPMD\\Rule\\CleanCode\\ElseExpression"@);
            assert("PHPMD\\Rule\\Design\\LongClass"@.len() != "PHPMD\\Rule\\CleanCode\\ElseExpression"@.len());
            assert("PHPMD\\Rule\\Design\\LongClass"@ != "PHPMD\\Rule\\CleanCode\\ElseExpression"@);
            assert("PHPMD\\Rule\\Design\\LongParameterList"@[11] != "PHPMD\\Rule\\CleanCode\\ElseExpression"@[11]);
            assert("PHPMD\\Rule\\Design\\LongParameterList"@ != "PHPMD\\Rule\\CleanCode\\ElseExpression"@);
            assert("PHPMD\\Rule\\ExcessivePublicCount"@.len() != "PHPMD\\Rule\\CleanCode\\ElseExpression"@.len());
            assert("PHPMD\\Rule\\ExcessivePublicCount"@ != "PHPMD\\Rule\\CleanCode\\ElseExpression"@);
            assert("PHPMD\\Rule\\Design\\TooManyFields"@.len() != "PHPMD\\Rule\\CleanCode\\ElseExpression"@.len());
            assert("PHPMD\\Rule\\Design\\TooManyFields"@ != "PHPMD\\Rule\\CleanCode\\ElseExpression"@);
            assert("PHPMD\\Rule\\Design\\TooManyMethods"@.len() != "PHPMD\\Rule\\CleanCode\\ElseExpression"@.len());
            assert("PHPMD\\Rule\\Design\\TooManyMethods"@ != "PHPMD\\Rule\\CleanCode\\ElseExpression"@);
            assert("PHPMD\\Rule\\Design\\TooManyPublicMethods"@.len() != "PHPMD\\Rule\\CleanCode\\ElseExpression"@.len());
            assert("PHPMD\\Rule\\Design\\TooManyPublicMethods"@ != "PHPMD\\Rule\\CleanCode\\ElseExpression"@);
            assert("PHPMD\\Rule\\Design\\WeightedMethodCount"@.len() != "PHPMD\\Rule\\CleanCode\\ElseExpression"@.len());
            assert("PHPMD\\Rule\\Design\\WeightedMethodCount"@ != "PHPMD\\Rule\\CleanCode\\ElseExpression"@);
            assert("PHPMD\\Rule\\Naming\\ShortClassName"@.len() != "PHPMD\\Rule\\CleanCode\\ElseExpression"@.len());
            assert("PHPMD\\Rule\\Naming\\ShortClassName"@ != "PHPMD\\Rule\\CleanCode\\ElseExpression"@);
            assert("PHPMD\\Rule\\Naming\\LongClassName"@.len() != "PHPMD\\Rule\\CleanCode\\ElseExpression"@.len());
            assert("PHPMD\\Rule\\Naming\\LongClassName"@ != "PHPMD\\Rule\\CleanCode\\ElseExpression"@);
            assert("PHPMD\\Rule\\Naming\\ShortVariable"@.len() != "PHPMD\\Rule\\CleanCode\\ElseExpression"@.len());
            assert("PHPMD\\Rule\\Naming\\ShortVariable"@ != "PHPMD\\Rule\\CleanCode\\ElseExpression"@);
            assert("PHPMD\\Rule\\Naming\\LongVariable"@.len() != "PHPMD\\Rule\\CleanCode\\ElseExpression"@.len());
            assert("PHPMD\\Rule\\Naming\\LongVariable"@ != "PHPMD\\Rule\\CleanCode\\ElseExpression"@);
            assert("PHPMD\\Rule\\Naming\\ShortMethodName"@.len() != "PHPMD\\Rule\\CleanCode\\ElseExpression"@.len());
            assert("PHPMD\\Rule\\Naming\\ShortMethodName"@ != "PHPMD\\Rule\\CleanCode\\ElseExpression"@);
            assert("PHPMD\\Rule\\Naming\\ConstantNamingConventions"@.len() != "PHPMD\\Rule\\CleanCode\\ElseExpression"@.len());
            assert("PHPMD\\Rule\\Naming\\ConstantNamingConventions"@ != "PHPMD\\Rule\\CleanCode\\ElseExpression"@);
            assert("PHPMD\\Rule\\Naming\\BooleanGetMethodName"@.len() != "PHPMD\\Rule\\CleanCode\\ElseExpression"@.len());
            assert("PHPMD\\Rule\\Naming\\BooleanGetMethodName"@ != "PHPMD\\Rule\\CleanCode\\ElseExpression"@);
            assert("PHPMD\\Rule\\UnusedPrivateField"@.len() != "PHPMD\\Rule\\CleanCode\\ElseExpression"@.len());
            assert("PHPMD\\Rule\\UnusedPrivateField"@ != "PHPMD\\Rule\\CleanCode\\ElseExpression"@);
            assert("PHPMD\\Rule\\UnusedLocalVariable"@.len() != "PHPMD\\Rule\\CleanCode\\ElseExpression"@.len());
            assert("PHPMD\\Rule\\UnusedLocalVariable"@ != "PHPMD\\Rule\\CleanCode\\ElseExpression"@);
            assert("PHPMD\\Rule\\UnusedPrivateMethod"@.len() != "PHPMD\\Rule\\CleanCode\\ElseExpression"@.len());
            assert("PHPMD\\Rule\\UnusedPrivateMethod"@ != "PHPMD\\Rule\\CleanCode\\ElseExpression"@);
            assert("PHPMD\\Rule\\UnusedFormalParameter"@.len() != "PHPMD\\Rule\\CleanCode\\ElseExpression"@.len());
            assert("PHPMD\\Rule\\UnusedFormalParameter"@ != "PHPMD\\Rule\\CleanCode\\ElseExpression"@);
            assert("PHPMD\\Rule\\CleanCode\\BooleanArgumentFlag"@.len() != "PHPMD\\Rule\\CleanCode\\ElseExpression"@.len());
            assert("PHPMD\\Rule\\CleanCode\\BooleanArgumentFlag"@ != "PHPMD\\Rule\\CleanCode\\ElseExpression"@);
            assert(kind_of_class("PHPMD\\Rule\\CleanCode\\ElseExpression"@) == Some(RuleKind::ElseExpression));
        },
        RuleKind::IfStatementAssignment => {
            reveal_strlit("PHPMD\\Rule\\CyclomaticComplexity");
            reveal_strlit("PHPMD\\Rule\\Design\\NpathComplexity");
            reveal_strlit("PHPMD\\Rule\\Design\\LongMethod");
            reveal_strlit("PHPMD\\Rule\\Design\\LongClass");
            reveal_strlit("PHPMD\\Rule\\Design\\LongParameterList");
            reveal_strlit("PHPMD\\Rule\\ExcessivePublicCount");
            reveal_strlit("PHPMD\\Rule\\Design\\TooManyFields");
            reveal_strlit("PHPMD\\Rule\\Design\\TooManyMethods");
            reveal_strlit("PHPMD\\Rule\\Design\\TooManyPublicMethods");
            reveal_strlit("PHPMD\\Rule\\Design\\WeightedMethodCount");
            reveal_strlit("PHPMD\\Rule\\Naming\\ShortClassName");
            reveal_strlit("PHPMD\\Rule\\Naming\\LongClassName");
            reveal_strlit("PHPMD\\Rule\\Naming\\ShortVariable");
            reveal_strlit("PHPMD\\Rule\\Naming\\LongVariable");
            reveal_strlit("PHPMD\\Rule\\Naming\\ShortMethodName");
            reveal_strlit("PHPMD\\Rule\\Naming\\ConstantNamingConventions");
            reveal_strlit("PHPMD\\Rule\\Naming\\BooleanGetMethodName");
            reveal_strlit("PHPMD\\Rule\\UnusedPrivateField");
            reveal_strlit("PHPMD\\Rule\\UnusedLocalVariable");
            reveal_strlit("PHPMD\\Rule\\UnusedPrivateMethod");
            reveal_strlit("PHPMD\\Rule\\UnusedFormalParameter");
            reveal_strlit("PHPMD\\Rule\\CleanCode\\BooleanArgumentFlag");
            reveal_strlit("PHPMD\\Rule\\CleanCode\\ElseExpression");
            reveal_strlit("PHPMD\\Rule\\CleanCode\\IfStatementAssignment");
            assert("PHPMD\\Rule\\CyclomaticComplexity"@.len() != "PHPMD\\Rule\\CleanCode\\IfStatementAssignment"@.len());
            assert("PHPMD\\Rule\\CyclomaticComplexity"@ != "PHPMD\\Rule\\CleanCode\\IfStatementAssignment"@);
            assert("PHPMD\\Rule\\Design\\NpathComplexity"@.len() != "PHPMD\\Rule\\CleanCode\\IfStatementAssignment"@.len());
            assert("PHPMD\\Rule\\Design\\NpathComplexity"@ != "PHPMD\\Rule\\CleanCode\\IfStatementAssignment"@);
            assert("PHPMD\\Rule\\Design\\LongMethod"@.len() != "PHPMD\\Rule\\CleanCode\\IfStatementAssignment"@.len());
            assert("PHPMD\\Rule\\Design\\LongMethod"@ != "PHPMD\\Rule\\CleanCode\\IfStatementAssignment"@);
            assert("PHPMD\\Rule\\Design\\LongClass"@.len() != "PHPMD\\Rule\\CleanCode\\IfStatementAssignment"@.len());
            assert("PHPMD\\Rule\\Design\\LongClass"@ != "PHPMD\\Rule\\CleanCode\\IfStatementAssignment"@);
            assert("PHPMD\\Rule\\Design\\LongParameterList"@.len() != "PHPMD\\Rule\\CleanCode\\IfStatementAssignment"@.len());
            assert("PHPMD\\Rule\\Design\\LongParameterList"@ != "PHPMD\\Rule\\CleanCode\\IfStatementAssignment"@);
            assert("PHPMD\\Rule\\ExcessivePublicCount"@.len() != "PHPMD\\Rule\\CleanCode\\IfStatementAssignment"@.len());
            assert("PHPMD\\Rule\\ExcessivePublicCount"@ != "PHPMD\\Rule\\CleanCode\\IfStatementAssignment"@);
            assert("PHPMD\\Rule\\Design\\TooManyFields"@.len() != "PHPMD\\Rule\\CleanCode\\IfStatementAssignment"@.len());
            assert("PHPMD\\Rule\\Design\\TooManyFields"@ != "PHPMD\\Rule\\CleanCode\\IfStatementAssignment"@);
            assert("PHPMD\\Rule\\Design\\TooManyMethods"@.len() != "PHPMD\\Rule\\CleanCode\\IfStatementAssignment"@.len());
            assert("PHPMD\\Rule\\Design\\TooManyMethods"@ != "PHPMD\\Rule\\CleanCode\\IfStatementAssignment"@);
            assert("PHPMD\\Rule\\Design\\TooManyPublicMethods"@.len() != "PHPMD\\Rule\\CleanCode\\IfStatementAssignment"@.len());
            assert("PHPMD\\Rule\\Design\\TooManyPublicMethods"@ != "PHPMD\\Rule\\CleanCode\\IfStatementAssignment"@);
            assert("PHPMD\\Rule\\Design\\WeightedMethodCount"@.len() != "PHPMD\\Rule\\CleanCode\\IfStatementAssignment"@.len());
            assert("PHPMD\\Rule\\Design\\WeightedMethodCount"@ != "PHPMD\\Rule\\CleanCode\\IfStatementAssignment"@);
            assert("PHPMD\\Rule\\Naming\\ShortClassName"@.len() != "PHPMD\\Rule\\CleanCode\\IfStatementAssignment"@.len());
            assert("PHPMD\\Rule\\Naming\\ShortClassName"@ != "PHPMD\\Rule\\CleanCode\\IfStatementAssignment"@);
            assert("PHPMD\\Rule\\Naming\\LongClassName"@.len() != "PHPMD\\Rule\\CleanCode\\IfStatementAssignment"@.len());
            assert("PHPMD\\Rule\\Naming\\LongClassName"@ != "PHPMD\\Rule\\CleanCode\\IfStatementAssignment"@);
            assert("PHPMD\\Rule\\Naming\\ShortVariable"@.len() != "PHPMD\\Rule\\CleanCode\\IfStatementAssignment"@.len());
            assert("PHPMD\\Rule\\Naming\\ShortVariable"@ != "PHPMD\\Rule\\CleanCode\\IfStatementAssignment"@);
            assert("PHPMD\\Rule\\Naming\\LongVariable"@.len() != "PHPMD\\Rule\\CleanCode\\IfStatementAssignment"@.len());
            assert("PHPMD\\Rule\\Naming\\LongVariable"@ != "PHPMD\\Rule\\CleanCode\\IfStatementAssignment"@);
            assert("PHPMD\\Rule\\Naming\\ShortMethodName"@.len() != "PHPMD\\Rule\\CleanCode\\IfStatementAssignment"@.len());
            assert("PHPMD\\Rule\\Naming\\ShortMethodName"@ != "PHPMD\\Rule\\CleanCode\\IfStatementAssignment"@);
            assert("PHPMD\\Rule\\Naming\\ConstantNamingConventions"@.len() != "PHPMD\\Rule\\CleanCode\\IfStatementAssignment"@.len());
            assert("PHPMD\\Rule\\Naming\\ConstantNamingConventions"@ != "PHPMD\\Rule\\CleanCode\\IfStatementAssignment"@);
            assert("PHPMD\\Rule\\Naming\\BooleanGetMethodName"@.len() != "PHPMD\\Rule\\CleanCode\\IfStatementAssignment"@.len());
            assert("PHPMD\\Rule\\Naming\\BooleanGetMethodName"@ != "PHPMD\\Rule\\CleanCode\\IfStatementAssignment"@);
            assert("PHPMD\\Rule\\UnusedPrivateField"@.len() != "PHPMD\\Rule\\CleanCode\\IfStatementAssignment"@.len());
            assert("PHPMD\\Rule\\UnusedPrivateField"@ != "PHPMD\\Rule\\CleanCode\\IfStatementAssignment"@);
            assert("PHPMD\\Rule\\UnusedLocalVariable"@.len() != "PHPMD\\Rule\\CleanCode\\IfStatementAssignment"@.len());
            assert("PHPMD\\Rule\\UnusedLocalVariable"@ != "PHPMD\\Rule\\CleanCode\\IfStatementAssignment"@);
            assert("PHPMD\\Rule\\UnusedPrivateMethod"@.len() != "PHPMD\\Rule\\CleanCode\\IfStatementAssignment"@.len());
            assert("PHPMD\\Rule\\UnusedPrivateMethod"@ != "PHPMD\\Rule\\CleanCode\\IfStatementAssignment"@);
            assert("PHPMD\\Rule\\UnusedFormalParameter"@.len() != "PHPMD\\Rule\\CleanCode\\IfStatementAssignment"@.len());
            assert("PHPMD\\Rule\\UnusedFormalParameter"@ != "PHPMD\\Rule\\CleanCode\\IfStatementAssignment"@);
            assert("PHPMD\\Rule\\CleanCode\\BooleanArgumentFlag"@.len() != "PHPMD\\Rule\\CleanCode\\IfStatementAssignment"@.len());
            assert("PHPMD\\Rule\\CleanCode\\BooleanArgumentFlag"@ != "PHPMD\\Rule\\CleanCode\\IfStatementAssignment"@);
            assert("PHPMD\\Rule\\CleanCode\\ElseExpression"@.len() != "PHPMD\\Rule\\CleanCode\\IfStatementAssignment"@.len());
            assert("PHPMD\\Rule\\CleanCode\\ElseExpression"@ != "PHPMD\\Rule\\CleanCode\\IfStatementAssignment"@);
            assert(kind_of_class("PHPMD\\Rule\\CleanCode\\IfStatementAssignment"@) == Some(RuleKind::IfStatementAssignment));
        },
        RuleKind::DuplicatedArrayKey => {
            reveal_strlit("PHPMD\\Rule\\CyclomaticComplexity");
            reveal_strlit("PHPMD\\Rule\\Design\\NpathComplexity");
            reveal_strlit("PHPMD\\Rule\\Design\\LongMethod");
            reveal_strlit("PHPMD\\Rule\\Design\\LongClass");
            reveal_strlit("PHPMD\\Rule\\Design\\LongParameterList");
            reveal_strlit("PHPMD\\Rule\\ExcessivePublicCount");
            reveal_strlit("PHPMD\\Rule\\Design\\TooManyFields");
            reveal_strlit("PHPMD\\Rule\\Design\\TooManyMethods");
            reveal_strlit("PHPMD\\Rule\\Design\\TooManyPublicMethods");
            reveal_strlit("PHPMD\\Rule\\Design\\WeightedMethodCount");
            reveal_strlit("PHPMD\\Rule\\Naming\\ShortClassName");
            reveal_strlit("PHPMD\\Rule\\Naming\\LongClassName");
            reveal_strlit("PHPMD\\Rule\\Naming\\ShortVariable");
            reveal_strlit("PHPMD\\Rule\\Naming\\LongVariable");
            reveal_strlit("PHPMD\\Rule\\Naming\\ShortMethodName");
            reveal_strlit("PHPMD\\Rule\\Naming\\ConstantNamingConventions");
            reveal_strlit("PHPMD\\Rule\\Naming\\BooleanGetMethodName");
            reveal_strlit("PHPMD\\Rule\\UnusedPrivateField");
            reveal_strlit("PHPMD\\Rule\\UnusedLocalVariable");
            reveal_strlit("PHPMD\\Rule\\UnusedPrivateMethod");
            reveal_strlit("PHPMD\\Rule\\UnusedFormalParameter");
            reveal_strlit("PHPMD\\Rule\\CleanCode\\BooleanArgumentFlag");
            reveal_strlit("PHPMD\\Rule\\CleanCode\\ElseExpression");
            reveal_strlit("PHPMD\\Rule\\CleanCode\\IfStatementAssignment");
            reveal_strlit("PHPMD\\Rule\\CleanCode\\DuplicatedArrayKey");
            assert("PHPMD\\Rule\\CyclomaticComplexity"@.len() != "PHPMD\\Rule\\CleanCode\\DuplicatedArrayKey"@.len());
            assert("PHPMD\\Rule\\CyclomaticComplexity"@ != "PHPMD\\Rule\\CleanCode\\DuplicatedArrayKey"@);
            assert("PHPMD\\Rule\\Design\\NpathComplexity"@.len() != "PHPMD\\Rule\\CleanCode\\DuplicatedArrayKey"@.len());
            assert("PHPMD\\Rule\\Design\\NpathComplexity"@ != "PHPMD\\Rule\\CleanCode\\DuplicatedArrayKey"@);
            assert("PHPMD\\Rule\\Design\\LongMethod"@.len() != "PHPMD\\Rule\\CleanCode\\DuplicatedArrayKey"@.len());
            assert("PHPMD\\Rule\\Design\\LongMethod"@ != "PHPMD\\Rule\\CleanCode\\DuplicatedArrayKey"@);
            assert("PHPMD\\Rule\\Design\\LongClass"@.len() != "PHPMD\\Rule\\CleanCode\\DuplicatedArrayKey"@.len());
            assert("PHPMD\\Rule\\Design\\LongClass"@ != "PHPMD\\Rule\\CleanCode\\DuplicatedArrayKey"@);
            assert("PHPMD\\Rule\\Design\\LongParameterList"@.len() != "PHPMD\\Rule\\CleanCode\\DuplicatedArrayKey"@.len());
            assert("PHPMD\\Rule\\Design\\LongParameterList"@ != "PHPMD\\Rule\\CleanCode\\DuplicatedArrayKey"@);
            assert("PHPMD\\Rule\\ExcessivePublicCount"@.len() != "PHPMD\\Rule\\CleanCode\\DuplicatedArrayKey"@.len());
            assert("PHPMD\\Rule\\ExcessivePublicCount"@ != "PHPMD\\Rule\\CleanCode\\DuplicatedArrayKey"@);
            assert("PHPMD\\Rule\\Design\\TooManyFields"@.len() != "PHPMD\\Rule\\CleanCode\\DuplicatedArrayKey"@.len());
            assert("PHPMD\\Rule\\Design\\TooManyFields"@ != "PHPMD\\Rule\\CleanCode\\DuplicatedArrayKey"@);
            assert("PHPMD\\Rule\\Design\\TooManyMethods"@.len() != "PHPMD\\Rule\\CleanCode\\DuplicatedArrayKey"@.len());
            assert("PHPMD\\Rule\\Design\\TooManyMethods"@ != "PHPMD\\Rule\\CleanCode\\DuplicatedArrayKey"@);
            assert("PHPMD\\Rule\\Design\\TooManyPublicMethods"@.len() != "PHPMD\\Rule\\CleanCode\\DuplicatedArrayKey"@.len());
            assert("PHPMD\\Rule\\Design\\TooManyPublicMethods"@ != "PHPMD\\Rule\\CleanCode\\DuplicatedArrayKey"@);
            assert("PHPMD\\Rule\\Design\\WeightedMethodCount"@.len() != "PHPMD\\Rule\\CleanCode\\DuplicatedArrayKey"@.len());
            assert("PHPMD\\Rule\\Design\\WeightedMethodCount"@ != "PHPMD\\Rule\\CleanCode\\DuplicatedArrayKey"@);
            assert("PHPMD\\Rule\\Naming\\ShortClassName"@.len() != "PHPMD\\Rule\\CleanCode\\DuplicatedArrayKey"@.len());
            assert("PHPMD\\Rule\\Naming\\ShortClassName"@ != "PHPMD\\Rule\\CleanCode\\DuplicatedArrayKey"@);
            assert("PHPMD\\Rule\\Naming\\LongClassName"@.len() != "PHPMD\\Rule\\CleanCode\\DuplicatedArrayKey"@.len());
            assert("PHPMD\\Rule\\Naming\\LongClassName"@ != "PHPMD\\Rule\\CleanCode\\DuplicatedArrayKey"@);
            assert("PHPMD\\Rule\\Naming\\ShortVariable"@.len() != "PHPMD\\Rule\\CleanCode\\DuplicatedArrayKey"@.len());
            assert("PHPMD\\Rule\\Naming\\ShortVariable"@ != "PHPMD\\Rule\\CleanCode\\DuplicatedArrayKey"@);
            assert("PHPMD\\Rule\\Naming\\LongVariable"@.len() != "PHPMD\\Rule\\CleanCode\\DuplicatedArrayKey"@.len());
            assert("PHPMD\\Rule\\Naming\\LongVariable"@ != "PHPMD\\Rule\\CleanCode\\DuplicatedArrayKey"@);
            assert("PHPMD\\Rule\\Naming\\ShortMethodName"@.len() != "PHPMD\\Rule\\CleanCode\\DuplicatedArrayKey"@.len());
            assert("PHPMD\\Rule\\Naming\\ShortMethodName"@ != "PHPMD\\Rule\\CleanCode\\DuplicatedArrayKey"@);
            assert("PHPMD\\Rule\\Naming\\ConstantNamingConventions"@.len() != "PHPMD\\Rule\\CleanCode\\DuplicatedArrayKey"@.len());
            assert("PHPMD\\Rule\\Naming\\ConstantNamingConventions"@ != "PHPMD\\Rule\\CleanCode\\DuplicatedArrayKey"@);
            assert("PHPMD\\Rule\\Naming\\BooleanGetMethodName"@.len() != "PHPMD\\Rule\\CleanCode\\DuplicatedArrayKey"@.len());
            assert("PHPMD\\Rule\\Naming\\BooleanGetMethodName"@ != "PHPMD\\Rule\\CleanCode\\DuplicatedArrayKey"@);
            assert("PHPMD\\Rule\\UnusedPrivateField"@.len() != "PHPMD\\Rule\\CleanCode\\DuplicatedArrayKey"@.len());
            assert("PHPMD\\Rule\\UnusedPrivateField"@ != "PHPMD\\Rule\\CleanCode\\DuplicatedArrayKey"@);
            assert("PHPMD\\Rule\\UnusedLocalVariable"@.len() != "PHPMD\\Rule\\CleanCode\\DuplicatedArrayKey"@.len());
            assert("PHPMD\\Rule\\UnusedLocalVariable"@ != "PHPMD\\Rule\\CleanCode\\DuplicatedArrayKey"@);
            assert("PHPMD\\Rule\\UnusedPrivateMethod"@.len() != "PHPMD\\Rule\\CleanCode\\DuplicatedArrayKey"@.len());
            assert("PHPMD\\Rule\\UnusedPrivateMethod"@ != "PHPMD\\Rule\\CleanCode\\DuplicatedArrayKey"@);
            assert("PHPMD\\Rule\\UnusedFormalParameter"@.len() != "PHPMD\\Rule\\CleanCode\\DuplicatedArrayKey"@.len());
            assert("PHPMD\\Rule\\UnusedFormalParameter"@ != "PHPMD\\Rule\\CleanCode\\DuplicatedArrayKey"@);
            assert("PHPMD\\Rule\\CleanCode\\BooleanArgumentFlag"@.len() != "PHPMD\\Rule\\CleanCode\\DuplicatedArrayKey"@.len());
            assert("PHPMD\\Rule\\CleanCode\\BooleanArgumentFlag"@ != "PHPMD\\Rule\\CleanCode\\DuplicatedArrayKey"@);
            assert("PHPMD\\Rule\\CleanCode\\ElseExpression"@.len() != "PHPMD\\Rule\\CleanCode\\DuplicatedArrayKey"@.len());
            assert("PHPMD\\Rule\\CleanCode\\ElseExpression"@ != "PHPMD\\Rule\\CleanCode\\DuplicatedArrayKey"@);
            assert("PHPMD\\Rule\\CleanCode\\IfStatementAssignment"@.len() != "PHPMD\\Rule\\CleanCode\\DuplicatedArrayKey"@.len());
            assert("PHPMD\\Rule\\CleanCode\\IfStatementAssignment"@ != "PHPMD\\Rule\\CleanCode\\DuplicatedArrayKey"@);
            assert(kind_of_class("PHPMD\\Rule\\CleanCode\\DuplicatedArrayKey"@) == Some(RuleKind::DuplicatedArrayKey));
        },
        RuleKind::StaticAccess => {
            reveal_strlit("PHPMD\\Rule\\CyclomaticComplexity");
            reveal_strlit("PHPMD\\Rule\\Design\\NpathComplexity");
            reveal_strlit("PHPMD\\Rule\\Design\\LongMethod");
            reveal_strlit("PHPMD\\Rule\\Design\\LongClass");
            reveal_strlit("PHPMD\\Rule\\Design\\LongParameterList");
            reveal_strlit("PHPMD\\Rule\\ExcessivePublicCount");
            reveal_strlit("PHPMD\\Rule\\Design\\TooManyFields");
            reveal_strlit("PHPMD\\Rule\\Design\\TooManyMethods");
            reveal_strlit("PHPMD\\Rule\\Design\\TooManyPublicMethods");
            reveal_strlit("PHPMD\\Rule\\Design\\WeightedMethodCount");
            reveal_strlit("PHPMD\\Rule\\Naming\\ShortClassName");
            reveal_strlit("PHPMD\\Rule\\Naming\\LongClassName");
            reveal_strlit("PHPMD\\Rule\\Naming\\ShortVariable");
            reveal_strlit("PHPMD\\Rule\\Naming\\LongVariable");
            reveal_strlit("PHPMD\\Rule\\Naming\\ShortMethodName");
            reveal_strlit("PHPMD\\Rule\\Naming\\ConstantNamingConventions");
            reveal_strlit("PHPMD\\Rule\\Naming\\BooleanGetMethodName");
            reveal_strlit("PHPMD\\Rule\\UnusedPrivateField");
            reveal_strlit("PHPMD\\Rule\\UnusedLocalVariable");
            reveal_strlit("PHPMD\\Rule\\UnusedPrivateMethod");
            reveal_strlit("PHPMD\\Rule\\UnusedFormalParameter");
            reveal_strlit("PHPMD\\Rule\\CleanCode\\BooleanArgumentFlag");
            reveal_strlit("PHPMD\\Rule\\CleanCode\\ElseExpression");
            reveal_strlit("PHPMD\\Rule\\CleanCode\\IfStatementAssignment");
            reveal_strlit("PHPMD\\Rule\\CleanCode\\DuplicatedArrayKey");
            reveal_strlit("PHPMD\\Rule\\CleanCode\\StaticAccess");
            assert("PHPMD\\Rule\\CyclomaticComplexity"@.len() != "PHPMD\\Rule\\CleanCode\\StaticAccess"@.len());
            assert("PHPMD\\Rule\\CyclomaticComplexity"@ != "PHPMD\\Rule\\CleanCode\\StaticAccess"@);
            assert("PHPMD\\Rule\\Design\\NpathComplexity"@[11] != "PHPMD\\Rule\\CleanCode\\StaticAccess"@[11]);
            assert("PHPMD\\Rule\\Design\\NpathComplexity"@ != "PHPMD\\Rule\\CleanCode\\StaticAccess"@);
            assert("PHPMD\\Rule\\Design\\LongMethod"@.len() != "PHPMD\\Rule\\CleanCode\\StaticAccess"@.len());
            assert("PHPMD\\Rule\\Design\\LongMethod"@ != "PHPMD\\Rule\\CleanCode\\StaticAccess"@);
            assert("PHPMD\\Rule\\Design\\LongClass"@.len() != "PHPMD\\Rule\\CleanCode\\StaticAccess"@.len());
            assert("PHPMD\\Rule\\Design\\LongClass"@ != "PHPMD\\Rule\\CleanCode\\StaticAccess"@);
            assert("PHPMD\\Rule\\Design\\LongParameterList"@.len() != "PHPMD\\Rule\\CleanCode\\StaticAccess"@.len());
            assert("PHPMD\\Rule\\Design\\LongParameterList"@ != "PHPMD\\Rule\\CleanCode\\StaticAccess"@);
            assert("PHPMD\\Rule\\ExcessivePublicCount"@.len() != "PHPMD\\Rule\\CleanCode\\StaticAccess"@.len());
            assert("PHPMD\\Rule\\ExcessivePublicCount"@ != "PHPMD\\Rule\\CleanCode\\StaticAccess"@);
            assert("PHPMD\\Rule\\Design\\TooManyFields"@.len() != "PHPMD\\Rule\\CleanCode\\StaticAccess"@.len());
            assert("PHPMD\\Rule\\Design\\TooManyFields"@ != "PHPMD\\Rule\\CleanCode\\StaticAccess"@);
            assert("PHPMD\\Rule\\Design\\TooManyMethods"@.len() != "PHPMD\\Rule\\CleanCode\\StaticAccess"@.len());
            assert("PHPMD\\Rule\\Design\\TooManyMethods"@ != "PHPMD\\Rule\\CleanCode\\StaticAccess"@);
            assert("PHPMD\\Rule\\Design\\TooManyPublicMethods"@.len() != "PHPMD\\Rule\\CleanCode\\StaticAccess"@.len());
            assert("PHPMD\\Rule\\Design\\TooManyPublicMethods"@ != "PHPMD\\Rule\\CleanCode\\StaticAccess"@);
            assert("PHPMD\\Rule\\Design\\WeightedMethodCount"@.len() != "PHPMD\\Rule\\CleanCode\\StaticAccess"@.len());
            assert("PHPMD\\Rule\\Design\\WeightedMethodCount"@ != "PHPMD\\Rule\\CleanCode\\StaticAccess"@);
            assert("PHPMD\\Rule\\Naming\\ShortClassName"@.len() != "PHPMD\\Rule\\CleanCode\\StaticAccess"@.len());
            assert("PHPMD\\Rule\\Naming\\ShortClassName"@ != "PHPMD\\Rule\\CleanCode\\StaticAccess"@);
            assert("PHPMD\\Rule\\Naming\\LongClassName"@.len() != "PHPMD\\Rule\\CleanCode\\StaticAccess"@.len());
            assert("PHPMD\\Rule\\Naming\\LongClassName"@ != "PHPMD\\Rule\\CleanCode\\StaticAccess"@);
            assert("PHPMD\\Rule\\Naming\\ShortVariable"@.len() != "PHPMD\\Rule\\CleanCode\\StaticAccess"@.len());
            assert("PHPMD\\Rule\\Naming\\ShortVariable"@ != "PHPMD\\Rule\\CleanCode\\StaticAccess"@);
            assert("PHPMD\\Rule\\Naming\\LongVariable"@.len() != "PHPMD\\Rule\\CleanCode\\StaticAccess"@.len());
            assert("PHPMD\\Rule\\Naming\\LongVariable"@ != "PHPMD\\Rule\\CleanCode\\StaticAccess"@);
            assert("PHPMD\\Rule\\Naming\\ShortMethodName"@[11] != "PHPMD\\Rule\\CleanCode\\StaticAccess"@[11]);
            assert("PHPMD\\Rule\\Naming\\ShortMethodName"@ != "PHPMD\\Rule\\CleanCode\\StaticAccess"@);
            assert("PHPMD\\Rule\\Naming\\ConstantNamingConventions"@.len() != "PHPMD\\Rule\\CleanCode\\StaticAccess"@.len());
            assert("PHPMD\\Rule\\Naming\\ConstantNamingConventions"@ != "PHPMD\\Rule\\CleanCode\\StaticAccess"@);
            assert("PHPMD\\Rule\\Naming\\BooleanGetMethodName"@.len() != "PHPMD\\Rule\\CleanCode\\StaticAccess"@.len());
            assert("PHPMD\\Rule\\Naming\\BooleanGetMethodName"@ != "PHPMD\\Rule\\CleanCode\\StaticAccess"@);
            assert("PHPMD\\Rule\\UnusedPrivateField"@.len() != "PHPMD\\Rule\\CleanCode\\StaticAccess"@.len());
            assert("PHPMD\\Rule\\UnusedPrivateField"@ != "PHPMD\\Rule\\CleanCode\\StaticAccess"@);
            assert("PHPMD\\Rule\\UnusedLocalVariable"@.len() != "PHPMD\\Rule\\CleanCode\\StaticAccess"@.len());
            assert("PHPMD\\Rule\\UnusedLocalVariable"@ != "PHPMD\\Rule\\CleanCode\\StaticAccess"@);
            assert("PHPMD\\Rule\\UnusedPrivateMethod"@.len() != "PHPMD\\Rule\\CleanCode\\StaticAccess"@.len());
            assert("PHPMD\\Rule\\UnusedPrivateMethod"@ != "PHPMD\\Rule\\CleanCode\\StaticAccess"@);
            assert("PHPMD\\Rule\\UnusedFormalParameter"@.len() != "PHPMD\\Rule\\CleanCode\\StaticAccess"@.len());
            assert("PHPMD\\Rule\\UnusedFormalParameter"@ != "PHPMD\\Rule\\CleanCode\\StaticAccess"@);
            assert("PHPMD\\Rule\\CleanCode\\BooleanArgumentFlag"@.len() != "PHPMD\\Rule\\CleanCode\\StaticAccess"@.len());
            assert("PHPMD\\Rule\\CleanCode\\BooleanArgumentFlag"@ != "PHPMD\\Rule\\CleanCode\\StaticAccess"@);
            assert("PHPMD\\Rule\\CleanCode\\ElseExpression"@.len() != "PHPMD\\Rule\\CleanCode\\StaticAccess"@.len());
            assert("PHPMD\\Rule\\CleanCode\\ElseExpression"@ != "PHPMD\\Rule\\CleanCode\\StaticAccess"@);
            assert("PHPMD\\Rule\\CleanCode\\IfStatementAssignment"@.len() != "PHPMD\\Rule\\CleanCode\\StaticAccess"@.len());
            assert("PHPMD\\Rule\\CleanCode\\IfStatementAssignment"@ != "PHPMD\\Rule\\CleanCode\\StaticAccess"@);
            assert("PHPMD\\Rule\\CleanCode\\DuplicatedArrayKey"@.len() != "PHPMD\\Rule\\CleanCode\\StaticAccess"@.len());
            assert("PHPMD\\Rule\\CleanCode\\DuplicatedArrayKey"@ != "PHPMD\\Rule\\CleanCode\\StaticAccess"@);
            assert(kind_of_class("PHPMD\\Rule\\CleanCode\\StaticAccess"@) == Some(RuleKind::StaticAccess));
        },
        RuleKind::ExitExpression => {
            reveal_strlit("PHPMD\\Rule\\CyclomaticComplexity");
            reveal_strlit("PHPMD\\Rule\\Design\\NpathComplexity");
            reveal_strlit("PHPMD\\Rule\\Design\\LongMethod");
            reveal_strlit("PHPMD\\Rule\\Design\\LongClass");
            reveal_strlit("PHPMD\\Rule\\Design\\LongParameterList");
            reveal_strlit("PHPMD\\Rule\\ExcessivePublicCount");
            reveal_strlit("PHPMD\\Rule\\Design\\TooManyFields");
            reveal_strlit("PHPMD\\Rule\\Design\\TooManyMethods");
            reveal_strlit("PHPMD\\Rule\\Design\\TooManyPublicMethods");
            reveal_strlit("PHPMD\\Rule\\Design\\WeightedMethodCount");
            reveal_strlit("PHPMD\\Rule\\Naming\\ShortClassName");
            reveal_strlit("PHPMD\\Rule\\Naming\\LongClassName");
            reveal_strlit("PHPMD\\Rule\\Naming\\ShortVariable");
            reveal_strlit("PHPMD\\Rule\\Naming\\LongVariable");
            reveal_strlit("PHPMD\\Rule\\Naming\\ShortMethodName");
            reveal_strlit("PHPMD\\Rule\\Naming\\ConstantNamingConventions");
            reveal_strlit("PHPMD\\Rule\\Naming\\BooleanGetMethodName");
            reveal_strlit("PHPMD\\Rule\\UnusedPrivateField");
            reveal_strlit("PHPMD\\Rule\\UnusedLocalVariable");
            reveal_strlit("PHPMD\\Rule\\UnusedPrivateMethod");
            reveal_strlit("PHPMD\\Rule\\UnusedFormalParameter");
            reveal_strlit("PHPMD\\Rule\\CleanCode\\BooleanArgumentFlag");
            reveal_strlit("PHPMD\\Rule\\CleanCode\\ElseExpression");
            reveal_strlit("PHPMD\\Rule\\CleanCode\\IfStatementAssignment");
            reveal_strlit("PHPMD\\Rule\\CleanCode\\DuplicatedArrayKey");
            reveal_strlit("PHPMD\\Rule\\CleanCode\\StaticAccess");
            reveal_strlit("PHPMD\\Rule\\Design\\ExitExpression");
            assert("PHPMD\\Rule\\CyclomaticComplexity"@.len() != "PHPMD\\Rule\\Design\\ExitExpression"@.len());
            assert("PHPMD\\Rule\\CyclomaticComplexity"@ != "PHPMD\\Rule\\Design\\ExitExpression"@);
            assert("PHPMD\\Rule\\Design\\NpathComplexity"@.len() != "PHPMD\\Rule\\Design\\ExitExpression"@.len());
            assert("PHPMD\\Rule\\Design\\NpathComplexity"@ != "PHPMD\\Rule\\Design\\ExitExpression"@);
            assert("PHPMD\\Rule\\Design\\LongMethod"@.len() != "PHPMD\\Rule\\Design\\ExitExpression"@.len());
            assert("PHPMD\\Rule\\Design\\LongMethod"@ != "PHPMD\\Rule\\Design\\ExitExpression"@);
            assert("PHPMD\\Rule\\Design\\LongClass"@.len() != "PHPMD\\Rule\\Design\\ExitExpression"@.len());
            assert("PHPMD\\Rule\\Design\\LongClass"@ != "PHPMD\\Rule\\Design\\ExitExpression"@);
            assert("PHPMD\\Rule\\Design\\LongParameterList"@.len() != "PHPMD\\Rule\\Design\\ExitExpression"@.len());
            assert("PHPMD\\Rule\\Design\\LongParameterList"@ != "PHPMD\\Rule\\Design\\ExitExpression"@);
            assert("PHPMD\\Rule\\ExcessivePublicCount"@.len() != "PHPMD\\Rule\\Design\\ExitExpression"@.len());
            assert("PHPMD\\Rule\\ExcessivePublicCount"@ != "PHPMD\\Rule\\Design\\ExitExpression"@);
            assert("PHPMD\\Rule\\Design\\TooManyFields"@.len() != "PHPMD\\Rule\\Design\\ExitExpression"@.len());
            assert("PHPMD\\Rule\\Design\\TooManyFields"@ != "PHPMD\\Rule\\Design\\ExitExpression"@);
            assert("PHPMD\\Rule\\Design\\TooManyMethods"@[18] != "PHPMD\\Rule\\Design\\ExitExpression"@[18]);
            assert("PHPMD\\Rule\\Design\\TooManyMethods"@ != "PHPMD\\Rule\\Design\\ExitExpression"@);
            assert("PHPMD\\Rule\\Design\\TooManyPublicMethods"@.len() != "PHPMD\\Rule\\Design\\ExitExpression"@.len());
            assert("PHPMD\\Rule\\Design\\TooManyPublicMethods"@ != "PHPMD\\Rule\\Design\\ExitExpression"@);
            assert("PHPMD\\Rule\\Design\\WeightedMethodCount"@.len() != "PHPMD\\Rule\\Design\\ExitExpression"@.len());
            assert("PHPMD\\Rule\\Design\\WeightedMethodCount"@ != "PHPMD\\Rule\\Design\\ExitExpression"@);
            assert("PHPMD\\Rule\\Naming\\ShortClassName"@[11] != "PHPMD\\Rule\\Design\\ExitExpression"@[11]);
            assert("PHPMD\\Rule\\Naming\\ShortClassName"@ != "PHPMD\\Rule\\Design\\ExitExpression"@);
            assert("PHPMD\\Rule\\Naming\\LongClassName"@.len() != "PHPMD\\Rule\\Design\\ExitExpression"@.len());
            assert("PHPMD\\Rule\\Naming\\LongClassName"@ != "PHPMD\\Rule\\Design\\ExitExpression"@);
            assert("PHPMD\\Rule\\Naming\\ShortVariable"@.len() != "PHPMD\\Rule\\Design\\ExitExpression"@.len());
            assert("PHPMD\\Rule\\Naming\\ShortVariable"@ != "PHPMD\\Rule\\Design\\ExitExpression"@);
            assert("PHPMD\\Rule\\Naming\\LongVariable"@.len() != "PHPMD\\Rule\\Design\\ExitExpression"@.len());
            assert("PHPMD\\Rule\\Naming\\LongVariable"@ != "PHPMD\\Rule\\Design\\ExitExpression"@);
            assert("PHPMD\\Rule\\Naming\\ShortMethodName"@.len() != "PHPMD\\Rule\\Design\\ExitExpression"@.len());
            assert("PHPMD\\Rule\\Naming\\ShortMethodName"@ != "PHPMD\\Rule\\Design\\ExitExpression"@);
            assert("PHPMD\\Rule\\Naming\\ConstantNamingConventions"@.len() != "PHPMD\\Rule\\Design\\ExitExpression"@.len());
            assert("PHPMD\\Rule\\Naming\\ConstantNamingConventions"@ != "PHPMD\\Rule\\Design\\ExitExpression"@);
            assert("PHPMD\\Rule\\Naming\\BooleanGetMethodName"@.len() != "PHPMD\\Rule\\Design\\ExitExpression"@.len());
            assert("PHPMD\\Rule\\Naming\\BooleanGetMethodName"@ != "PHPMD\\Rule\\Design\\ExitExpression"@);
            assert("PHPMD\\Rule\\UnusedPrivateField"@.len() != "PHPMD\\Rule\\Design\\ExitExpression"@.len());
            assert("PHPMD\\Rule\\UnusedPrivateField"@ != "PHPMD\\Rule\\Design\\ExitExpression"@);
            assert("PHPMD\\Rule\\UnusedLocalVariable"@.len() != "PHPMD\\Rule\\Design\\ExitExpression"@.len());
            assert("PHPMD\\Rule\\UnusedLocalVariable"@ != "PHPMD\\Rule\\Design\\ExitExpression"@);
            assert("PHPMD\\Rule\\UnusedPrivateMethod"@.len() != "PHPMD\\Rule\\Design\\ExitExpression"@.len());
            assert("PHPMD\\Rule\\UnusedPrivateMethod"@ != "PHPMD\\Rule\\Design\\ExitExpression"@);
            assert("PHPMD\\Rule\\UnusedFormalParameter"@[11] != "PHPMD\\Rule\\Design\\ExitExpression"@[11]);
            assert("PHPMD\\Rule\\UnusedFormalParameter"@ != "PHPMD\\Rule\\Design\\ExitExpression"@);
            assert("PHPMD\\Rule\\CleanCode\\BooleanArgumentFlag"@.len() != "PHPMD\\Rule\\Design\\ExitExpression"@.len());
            assert("PHPMD\\Rule\\CleanCode\\BooleanArgumentFlag"@ != "PHPMD\\Rule\\Design\\ExitExpression"@);
            assert("PHPMD\\Rule\\CleanCode\\ElseExpression"@.len() != "PHPMD\\Rule\\Design\\ExitExpression"@.len());
            assert("PHPMD\\Rule\\CleanCode\\ElseExpression"@ != "PHPMD\\Rule\\Design\\ExitExpression"@);
            assert("PHPMD\\Rule\\CleanCode\\IfStatementAssignment"@.len() != "PHPMD\\Rule\\Design\\ExitExpression"@.len());
            assert("PHPMD\\Rule\\CleanCode\\IfStatementAssignment"@ != "PHPMD\\Rule\\Design\\ExitExpression"@);
            assert("PHPMD\\Rule\\CleanCode\\DuplicatedArrayKey"@.len() != "PHPMD\\Rule\\Design\\ExitExpression"@.len());
            assert("PHPMD\\Rule\\CleanCode\\DuplicatedArrayKey"@ != "PHPMD\\Rule\\Design\\ExitExpression"@);
            assert("PHPMD\\Rule\\CleanCode\\StaticAccess"@.len() != "PHPMD\\Rule\\Design\\ExitExpression"@.len());
            assert("PHPMD\\Rule\\CleanCode\\StaticAccess"@ != "PHPMD\\Rule\\Design\\ExitExpression"@);
            assert(kind_of_class("PHPMD\\Rule\\Design\\ExitExpression"@) == Some(RuleKind::ExitExpression));
        },
        RuleKind::GotoStatement => {
            reveal_strlit("PHPMD\\Rule\\CyclomaticComplexity");
            reveal_strlit("PHPMD\\Rule\\Design\\NpathComplexity");
            reveal_strlit("PHPMD\\Rule\\Design\\LongMethod");
            reveal_strlit("PHPMD\\Rule\\Design\\LongClass");
            reveal_strlit("PHPMD\\Rule\\Design\\LongParameterList");
            reveal_strlit("PHPMD\\Rule\\ExcessivePublicCount");
            reveal_strlit("PHPMD\\Rule\\Design\\TooManyFields");
            reveal_strlit("PHPMD\\Rule\\Design\\TooManyMethods");
            reveal_strlit("PHPMD\\Rule\\Design\\TooManyPublicMethods");
            reveal_strlit("PHPMD\\Rule\\Design\\WeightedMethodCount");
            reveal_strlit("PHPMD\\Rule\\Naming\\ShortClassName");
            reveal_strlit("PHPMD\\Rule\\Naming\\LongClassName");
            reveal_strlit("PHPMD\\Rule\\Naming\\ShortVariable");
            reveal_strlit("PHPMD\\Rule\\Naming\\LongVariable");
            reveal_strlit("PHPMD\\Rule\\Naming\\ShortMethodName");
            reveal_strlit("PHPMD\\Rule\\Naming\\ConstantNamingConventions");
            reveal_strlit("PHPMD\\Rule\\Naming\\BooleanGetMethodName");
            reveal_strlit("PHPMD\\Rule\\UnusedPrivateField");
            reveal_strlit("PHPMD\\Rule\\UnusedLocalVariable");
            reveal_strlit("PHPMD\\Rule\\UnusedPrivateMethod");
            reveal_strlit("PHPMD\\Rule\\UnusedFormalParameter");
            reveal_strlit("PHPMD\\Rule\\CleanCode\\BooleanArgumentFlag");
            reveal_strlit("PHPMD\\Rule\\CleanCode\\ElseExpression");
            reveal_strlit("PHPMD\\Rule\\CleanCode\\IfStatementAssignment");
            reveal_strlit("PHPMD\\Rule\\CleanCode\\DuplicatedArrayKey");
            reveal_strlit("PHPMD\\Rule\\CleanCode\\StaticAccess");
            reveal_strlit("PHPMD\\Rule\\Design\\ExitExpression");
            reveal_strlit("PHPMD\\Rule\\Design\\GotoStatement");
            assert("PHPMD\\Rule\\CyclomaticComplexity"@[11] != "PHPMD\\Rule\\Design\\GotoStatement"@[11]);
            assert("PHPMD\\Rule\\CyclomaticComplexity"@ != "PHPMD\\Rule\\Design\\GotoStatement"@);
            assert("PHPMD\\Rule\\Design\\NpathComplexity"@.len() != "PHPMD\\Rule\\Design\\GotoStatement"@.len());
            assert("PHPMD\\Rule\\Design\\NpathComplexity"@ != "PHPMD\\Rule\\Design\\GotoStatement"@);
            assert("PHPMD\\Rule\\Design\\LongMethod"@.len() != "PHPMD\\Rule\\Design\\GotoStatement"@.len());
            assert("PHPMD\\Rule\\Design\\LongMethod"@ != "PHPMD\\Rule\\Design\\GotoStatement"@);
            assert("PHPMD\\Rule\\Design\\LongClass"@.len() != "PHPMD\\Rule\\Design\\GotoStatement"@.len());
            assert("PHPMD\\Rule\\Design\\LongClass"@ != "PHPMD\\Rule\\Design\\GotoStatement"@);
            assert("PHPMD\\Rule\\Design\\LongParameterList"@.len() != "PHPMD\\Rule\\Design\\GotoStatement"@.len());
            assert("PHPMD\\Rule\\Design\\LongParameterList"@ != "PHPMD\\Rule\\Design\\GotoStatement"@);
            assert("PHPMD\\Rule\\ExcessivePublicCount"@[11] != "PHPMD\\Rule\\Design\\GotoStatement"@[11]);
            assert("PHPMD\\Rule\\ExcessivePublicCount"@ != "PHPMD\\Rule\\Design\\GotoStatement"@);
            assert("PHPMD\\Rule\\Design\\TooManyFields"@[18] != "PHPMD\\Rule\\Design\\GotoStatement"@[18]);
            assert("PHPMD\\Rule\\Design\\TooManyFields"@ != "PHPMD\\Rule\\Design\\GotoStatement"@);
            assert("PHPMD\\Rule\\Design\\TooManyMethods"@.len() != "PHPMD\\Rule\\Design\\GotoStatement"@.len());
            assert("PHPMD\\Rule\\Design\\TooManyMethods"@ != "PHPMD\\Rule\\Design\\GotoStatement"@);
            assert("PHPMD\\Rule\\Design\\TooManyPublicMethods"@.len() != "PHPMD\\Rule\\Design\\GotoStatement"@.len());
            assert("PHPMD\\Rule\\Design\\TooManyPublicMethods"@ != "PHPMD\\Rule\\Design\\GotoStatement"@);
            assert("PHPMD\\Rule\\Design\\WeightedMethodCount"@.len() != "PHPMD\\Rule\\Design\\GotoStatement"@.len());
            assert("PHPMD\\Rule\\Design\\WeightedMethodCount"@ != "PHPMD\\Rule\\Design\\GotoStatement"@);
            assert("PHPMD\\Rule\\Naming\\ShortClassName"@.len() != "PHPMD\\Rule\\Design\\GotoStatement"@.len());
            assert("PHPMD\\Rule\\Naming\\ShortClassName"@ != "PHPMD\\Rule\\Design\\GotoStatement"@);
            assert("PHPMD\\Rule\\Naming\\LongClassName"@[11] != "PHPMD\\Rule\\Design\\GotoStatement"@[11]);
            assert("PHPMD\\Rule\\Naming\\LongClassName"@ != "PHPMD\\Rule\\Design\\GotoStatement"@);
            assert("PHPMD\\Rule\\Naming\\ShortVariable"@[11] != "PHPMD\\Rule\\Design\\GotoStatement"@[11]);
            assert("PHPMD\\Rule\\Naming\\ShortVariable"@ != "PHPMD\\Rule\\Design\\GotoStatement"@);
            assert("PHPMD\\Rule\\Naming\\LongVariable"@.len() != "PHPMD\\Rule\\Design\\GotoStatement"@.len());
            assert("PHPMD\\Rule\\Naming\\LongVariable"@ != "PHPMD\\Rule\\Design\\GotoStatement"@);
            assert("PHPMD\\Rule\\Naming\\ShortMethodName"@.len() != "PHPMD\\Rule\\Design\\GotoStatement"@.len());
            assert("PHPMD\\Rule\\Naming\\ShortMethodName"@ != "PHPMD\\Rule\\Design\\GotoStatement"@);
            assert("PHPMD\\Rule\\Naming\\ConstantNamingConventions"@.len() != "PHPMD\\Rule\\Design\\GotoStatement"@.len());
            assert("PHPMD\\Rule\\Naming\\ConstantNamingConventions"@ != "PHPMD\\Rule\\Design\\GotoStatement"@);
            assert("PHPMD\\Rule\\Naming\\BooleanGetMethodName"@.len() != "PHPMD\\Rule\\Design\\GotoStatement"@.len());
            assert("PHPMD\\Rule\\Naming\\BooleanGetMethodName"@ != "PHPMD\\Rule\\Design\\GotoStatement"@);
            assert("PHPMD\\Rule\\UnusedPrivateField"@.len() != "PHPMD\\Rule\\Design\\GotoStatement"@.len());
            assert("PHPMD\\Rule\\UnusedPrivateField"@ != "PHPMD\\Rule\\Design\\GotoStatement"@);
            assert("PHPMD\\Rule\\UnusedLocalVariable"@.len() != "PHPMD\\Rule\\Design\\GotoStatement"@.len());
            assert("PHPMD\\Rule\\UnusedLocalVariable"@ != "PHPMD\\Rule\\Design\\GotoStatement"@);
            assert("PHPMD\\Rule\\UnusedPrivateMethod"@.len() != "PHPMD\\Rule\\Design\\GotoStatement"@.len());
            assert("PHPMD\\Rule\\UnusedPrivateMethod"@ != "PHPMD\\Rule\\Design\\GotoStatement"@);
            assert("PHPMD\\Rule\\UnusedFormalParameter"@.len() != "PHPMD\\Rule\\Design\\GotoStatement"@.len());
            assert("PHPMD\\Rule\\UnusedFormalParameter"@ != "PHPMD\\Rule\\Design\\GotoStatement"@);
            assert("PHPMD\\Rule\\CleanCode\\BooleanArgumentFlag"@.len() != "PHPMD\\Rule\\Design\\GotoStatement"@.len());
            assert("PHPMD\\Rule\\CleanCode\\BooleanArgumentFlag"@ != "PHPMD\\Rule\\Design\\GotoStatement"@);
            assert("PHPMD\\Rule\\CleanCode\\ElseExpression"@.len() != "PHPMD\\Rule\\Design\\GotoStatement"@.len());
            assert("PHPMD\\Rule\\CleanCode\\ElseExpression"@ != "PHPMD\\Rule\\Design\\GotoStatement"@);
            assert("PHPMD\\Rule\\CleanCode\\IfStatementAssignment"@.len() != "PHPMD\\Rule\\Design\\GotoStatement"@.len());
            assert("PHPMD\\Rule\\CleanCode\\IfStatementAssignment"@ != "PHPMD\\Rule\\Design\\GotoStatement"@);
            assert("PHPMD\\Rule\\CleanCode\\DuplicatedArrayKey"@.len() != "PHPMD\\Rule\\Design\\GotoStatement"@.len());
            assert("PHPMD\\Rule\\CleanCode\\DuplicatedArrayKey"@ != "PHPMD\\Rule\\Design\\GotoStatement"@);
            assert("PHPMD\\Rule\\CleanCode\\StaticAccess"@.len() != "PHPMD\\Rule\\Design\\GotoStatement"@.len());
            assert("PHPMD\\Rule\\CleanCode\\StaticAccess"@ != "PHPMD\\Rule\\Design\\GotoStatement"@);
            assert("PHPMD\\Rule\\Design\\ExitExpression"@.len() != "PHPMD\\Rule\\Design\\GotoStatement"@.len());
            assert("PHPMD\\Rule\\Design\\ExitExpression"@ != "PHPMD\\Rule\\Design\\GotoStatement"@);
            assert(kind_of_class("PHPMD\\Rule\\Design\\GotoStatement"@) == Some(RuleKind::GotoStatement));
        },
        RuleKind::CountInLoopExpression => {
            reveal_strlit("PHPMD\\Rule\\CyclomaticComplexity");
            reveal_strlit("PHPMD\\Rule\\Design\\NpathComplexity");
            reveal_strlit("PHPMD\\Rule\\Design\\LongMethod");
            reveal_strlit("PHPMD\\Rule\\Design\\LongClass");
            reveal_strlit("PHPMD\\Rule\\Design\\LongParameterList");
            reveal_strlit("PHPMD\\Rule\\ExcessivePublicCount");
            reveal_strlit("PHPMD\\Rule\\Design\\TooManyFields");
            reveal_strlit("PHPMD\\Rule\\Design\\TooManyMethods");
            reveal_strlit("PHPMD\\Rule\\Design\\TooManyPublicMethods");
            reveal_strlit("PHPMD\\Rule\\Design\\WeightedMethodCount");
            reveal_strlit("PHPMD\\Rule\\Naming\\ShortClassName");
            reveal_strlit("PHPMD\\Rule\\Naming\\LongClassName");
            reveal_strlit("PHPMD\\Rule\\Naming\\ShortVariable");
            reveal_strlit("PHPMD\\Rule\\Naming\\LongVariable");
            reveal_strlit("PHPMD\\Rule\\Naming\\ShortMethodName");
            reveal_strlit("PHPMD\\Rule\\Naming\\ConstantNamingConventions");
            reveal_strlit("PHPMD\\Rule\\Naming\\BooleanGetMethodName");
            reveal_strlit("PHPMD\\Rule\\UnusedPrivateField");
            reveal_strlit("PHPMD\\Rule\\UnusedLocalVariable");
            reveal_strlit("PHPMD\\Rule\\UnusedPrivateMethod");
            reveal_strlit("PHPMD\\Rule\\UnusedFormalParameter");
            reveal_strlit("PHPMD\\Rule\\CleanCode\\BooleanArgumentFlag");
            reveal_strlit("PHPMD\\Rule\\CleanCode\\ElseExpression");
            reveal_strlit("PHPMD\\Rule\\CleanCode\\IfStatementAssignment");
            reveal_strlit("PHPMD\\Rule\\CleanCode\\DuplicatedArrayKey");
            reveal_strlit("PHPMD\\Rule\\CleanCode\\StaticAccess");
            reveal_strlit("PHPMD\\Rule\\Design\\ExitExpression");
            reveal_strlit("PHPMD\\Rule\\Design\\GotoStatement");
            reveal_strlit("PHPMD\\Rule\\Design\\CountInLoopExpression");
            assert("PHPMD\\Rule\\CyclomaticComplexity"@.len() != "PHPMD\\Rule\\Design\\CountInLoopExpression"@.len());
            assert("PHPMD\\Rule\\CyclomaticComplexity"@ != "PHPMD\\Rule\\Design\\CountInLoopExpression"@);
            assert("PHPMD\\Rule\\Design\\NpathComplexity"@.len() != "PHPMD\\Rule\\Design\\CountInLoopExpression"@.len());
            assert("PHPMD\\Rule\\Design\\NpathComplexity"@ != "PHPMD\\Rule\\Design\\CountInLoopExpression"@);
            assert("PHPMD\\Rule\\Design\\LongMethod"@.len() != "PHPMD\\Rule\\Design\\CountInLoopExpression"@.len());
            assert("PHPMD\\Rule\\Design\\LongMethod"@ != "PHPMD\\Rule\\Design\\CountInLoopExpression"@);
            assert("PHPMD\\Rule\\Design\\LongClass"@.len() != "PHPMD\\Rule\\Design\\CountInLoopExpression"@.len());
            assert("PHPMD\\Rule\\Design\\LongClass"@ != "PHPMD\\Rule\\Design\\CountInLoopExpression"@);
            assert("PHPMD\\Rule\\Design\\LongParameterList"@.len() != "PHPMD\\Rule\\Design\\CountInLoopExpression"@.len());
            assert("PHPMD\\Rule\\Design\\LongParameterList"@ != "PHPMD\\Rule\\Design\\CountInLoopExpression"@);
            assert("PHPMD\\Rule\\ExcessivePublicCount"@.len() != "PHPMD\\Rule\\Design\\CountInLoopExpression"@.len());
            assert("PHPMD\\Rule\\ExcessivePublicCount"@ != "PHPMD\\Rule\\Design\\CountInLoopExpression"@);
            assert("PHPMD\\Rule\\Design\\TooManyFields"@.len() != "PHPMD\\Rule\\Design\\CountInLoopExpression"@.len());
            assert("PHPMD\\Rule\\Design\\TooManyFields"@ != "PHPMD\\Rule\\Design\\CountInLoopExpression"@);
            assert("PHPMD\\Rule\\Design\\TooManyMethods"@.len() != "PHPMD\\Rule\\Design\\CountInLoopExpression"@.len());
            assert("PHPMD\\Rule\\Design\\TooManyMethods"@ != "PHPMD\\Rule\\Design\\CountInLoopExpression"@);
            assert("PHPMD\\Rule\\Design\\TooManyPublicMethods"@.len() != "PHPMD\\Rule\\Design\\CountInLoopExpression"@.len());
            assert("PHPMD\\Rule\\Design\\TooManyPublicMethods"@ != "PHPMD\\Rule\\Design\\CountInLoopExpression"@);
            assert("PHPMD\\Rule\\Design\\WeightedMethodCount"@.len() != "PHPMD\\Rule\\Design\\CountInLoopExpression"@.len());
            assert("PHPMD\\Rule\\Design\\WeightedMethodCount"@ != "PHPMD\\Rule\\Design\\CountInLoopExpression"@);
            assert("PHPMD\\Rule\\Naming\\ShortClassName"@.len() != "PHPMD\\Rule\\Design\\CountInLoopExpression"@.len());
            assert("PHPMD\\Rule\\Naming\\ShortClassName"@ != "PHPMD\\Rule\\Design\\CountInLoopExpression"@);
            assert("PHPMD\\Rule\\Naming\\LongClassName"@.len() != "PHPMD\\Rule\\Design\\CountInLoopExpression"@.len());
            assert("PHPMD\\Rule\\Naming\\LongClassName"@ != "PHPMD\\Rule\\Design\\CountInLoopExpression"@);
            assert("PHPMD\\Rule\\Naming\\ShortVariable"@.len() != "PHPMD\\Rule\\Design\\CountInLoopExpression"@.len());
            assert("PHPMD\\Rule\\Naming\\ShortVariable"@ != "PHPMD\\Rule\\Design\\CountInLoopExpression"@);
            assert("PHPMD\\Rule\\Naming\\LongVariable"@.len() != "PHPMD\\Rule\\Design\\CountInLoopExpression"@.len());
            assert("PHPMD\\Rule\\Naming\\LongVariable"@ != "PHPMD\\Rule\\Design\\CountInLoopExpression"@);
            assert("PHPMD\\Rule\\Naming\\ShortMethodName"@.len() != "PHPMD\\Rule\\Design\\CountInLoopExpression"@.len());
            assert("PHPMD\\Rule\\Naming\\ShortMethodName"@ != "PHPMD\\Rule\\Design\\CountInLoopExpression"@);
            assert("PHPMD\\Rule\\Naming\\ConstantNamingConventions"@.len() != "PHPMD\\Rule\\Design\\CountInLoopExpression"@.len());
            assert("PHPMD\\Rule\\Naming\\ConstantNamingConventions"@ != "PHPMD\\Rule\\Design\\CountInLoopExpression"@);
            assert("PHPMD\\Rule\\Naming\\BooleanGetMethodName"@.len() != "PHPMD\\Rule\\Design\\CountInLoopExpression"@.len());
            assert("PHPMD\\Rule\\Naming\\BooleanGetMethodName"@ != "PHPMD\\Rule\\Design\\CountInLoopExpression"@);
            assert("PHPMD\\Rule\\UnusedPrivateField"@.len() != "PHPMD\\Rule\\Design\\CountInLoopExpression"@.len());
            assert("PHPMD\\Rule\\UnusedPrivateField"@ != "PHPMD\\Rule\\Design\\CountInLoopExpression"@);
            assert("PHPMD\\Rule\\UnusedLocalVariable"@.len() != "PHPMD\\Rule\\Design\\CountInLoopExpression"@.len());
            assert("PHPMD\\Rule\\UnusedLocalVariable"@ != "PHPMD\\Rule\\Design\\CountInLoopExpression"@);
            assert("PHPMD\\Rule\\UnusedPrivateMethod"@.len() != "PHPMD\\Rule\\Design\\CountInLoopExpression"@.len());
            assert("PHPMD\\Rule\\UnusedPrivateMethod"@ != "PHPMD\\Rule\\Design\\CountInLoopExpression"@);
            assert("PHPMD\\Rule\\UnusedFormalParameter"@.len() != "PHPMD\\Rule\\Design\\CountInLoopExpression"@.len());
            assert("PHPMD\\Rule\\UnusedFormalParameter"@ != "PHPMD\\Rule\\Design\\CountInLoopExpression"@);
            assert("PHPMD\\Rule\\CleanCode\\BooleanArgumentFlag"@.len() != "PHPMD\\Rule\\Design\\CountInLoopExpression"@.len());
            assert("PHPMD\\Rule\\CleanCode\\BooleanArgumentFlag"@ != "PHPMD\\Rule\\Design\\CountInLoopExpression"@);
            assert("PHPMD\\Rule\\CleanCode\\ElseExpression"@.len() != "PHPMD\\Rule\\Design\\CountInLoopExpression"@.len());
            assert("PHPMD\\Rule\\CleanCode\\ElseExpression"@ != "PHPMD\\Rule\\Design\\CountInLoopExpression"@);
            assert("PHPMD\\Rule\\CleanCode\\IfStatementAssignment"@.len() != "PHPMD\\Rule\\Design\\CountInLoopExpression"@.len());
            assert("PHPMD\\Rule\\CleanCode\\IfStatementAssignment"@ != "PHPMD\\Rule\\Design\\CountInLoopExpression"@);
            assert("PHPMD\\Rule\\CleanCode\\DuplicatedArrayKey"@[11] != "PHPMD\\Rule\\Design\\CountInLoopExpression"@[11]);
            assert("PHPMD\\Rule\\CleanCode\\DuplicatedArrayKey"@ != "PHPMD\\Rule\\Design\\CountInLoopExpression"@);
            assert("PHPMD\\Rule\\CleanCode\\StaticAccess"@.len() != "PHPMD\\Rule\\Design\\CountInLoopExpression"@.len());
            assert("PHPMD\\Rule\\CleanCode\\StaticAccess"@ != "PHPMD\\Rule\\Design\\CountInLoopExpression"@);
            assert("PHPMD\\Rule\\Design\\ExitExpression"@.len() != "PHPMD\\Rule\\Design\\CountInLoopExpression"@.len());
            assert("PHPMD\\Rule\\Design\\ExitExpression"@ != "PHPMD\\Rule\\Design\\CountInLoopExpression"@);
            assert("PHPMD\\Rule\\Design\\GotoStatement"@.len() != "PHPMD\\Rule\\Design\\CountInLoopExpression"@.len());
            assert("PHPMD\\Rule\\Design\\GotoStatement"@ != "PHPMD\\Rule\\Design\\CountInLoopExpression"@);
            assert(kind_of_class("PHPMD\\Rule\\Design\\CountInLoopExpression"@) == Some(RuleKind::CountInLoopExpression));
        },
        RuleKind::DevelopmentCodeFragment => {
            reveal_strlit("PHPMD\\Rule\\CyclomaticComplexity");
            reveal_strlit("PHPMD\\Rule\\Design\\NpathComplexity");
            reveal_strlit("PHPMD\\Rule\\Design\\LongMethod");
            reveal_strlit("PHPMD\\Rule\\Design\\LongClass");
            reveal_strlit("PHPMD\\Rule\\Design\\LongParameterList");
            reveal_strlit("PHPMD\\Rule\\ExcessivePublicCount");
            reveal_strlit("PHPMD\\Rule\\Design\\TooManyFields");
            reveal_strlit("PHPMD\\Rule\\Design\\TooManyMethods");
            reveal_strlit("PHPMD\\Rule\\Design\\TooManyPublicMethods");
            reveal_strlit("PHPMD\\Rule\\Design\\WeightedMethodCount");
            reveal_strlit("PHPMD\\Rule\\Naming\\ShortClassName");
            reveal_strlit("PHPMD\\Rule\\Naming\\LongClassName");
            reveal_strlit("PHPMD\\Rule\\Naming\\ShortVariable");
            reveal_strlit("PHPMD\\Rule\\Naming\\LongVariable");
            reveal_strlit("PHPMD\\Rule\\Naming\\ShortMethodName");
            reveal_strlit("PHPMD\\Rule\\Naming\\ConstantNamingConventions");
            reveal_strlit("PHPMD\\Rule\\Naming\\BooleanGetMethodName");
            reveal_strlit("PHPMD\\Rule\\UnusedPrivateField");
            reveal_strlit("PHPMD\\Rule\\UnusedLocalVariable");
            reveal_strlit("PHPMD\\Rule\\UnusedPrivateMethod");
            reveal_strlit("PHPMD\\Rule\\UnusedFormalParameter");
            reveal_strlit("PHPMD\\Rule\\CleanCode\\BooleanArgumentFlag");
            reveal_strlit("PHPMD\\Rule\\CleanCode\\ElseExpression");
            reveal_strlit("PHPMD\\Rule\\CleanCode\\IfStatementAssignment");
            reveal_strlit("PHPMD\\Rule\\CleanCode\\DuplicatedArrayKey");
            reveal_strlit("PHPMD\\Rule\\CleanCode\\StaticAccess");
            reveal_strlit("PHPMD\\Rule\\Design\\ExitExpression");
            reveal_strlit("PHPMD\\Rule\\Design\\GotoStatement");
            reveal_strlit("PHPMD\\Rule\\Design\\CountInLoopExpression");
            reveal_strlit("PHPMD\\Rule\\Design\\DevelopmentCodeFragment");
            assert("PHPMD\\Rule\\CyclomaticComplexity"@.len() != "PHPMD\\Rule\\Design\\DevelopmentCodeFragment"@.len());
            assert("PHPMD\\Rule\\CyclomaticComplexity"@ != "PHPMD\\Rule\\Design\\DevelopmentCodeFragment"@);
            assert("PHPMD\\Rule\\Design\\NpathComplexity"@.len() != "PHPMD\\Rule\\Design\\DevelopmentCodeFragment"@.len());
            assert("PHPMD\\Rule\\Design\\NpathComplexity"@ != "PHPMD\\Rule\\Design\\DevelopmentCodeFragment"@);
            assert("PHPMD\\Rule\\Design\\LongMethod"@.len() != "PHPMD\\Rule\\Design\\DevelopmentCodeFragment"@.len());
            assert("PHPMD\\Rule\\Design\\LongMethod"@ != "PHPMD\\Rule\\Design\\DevelopmentCodeFragment"@);
            assert("PHPMD\\Rule\\Design\\LongClass"@.len() != "PHPMD\\Rule\\Design\\DevelopmentCodeFragment"@.len());
            assert("PHPMD\\Rule\\Design\\LongClass"@ != "PHPMD\\Rule\\Design\\DevelopmentCodeFragment"@);
            assert("PHPMD\\Rule\\Design\\LongParameterList"@.len() != "PHPMD\\Rule\\Design\\DevelopmentCodeFragment"@.len());
            assert("PHPMD\\Rule\\Design\\LongParameterList"@ != "PHPMD\\Rule\\Design\\DevelopmentCodeFragment"@);
            assert("PHPMD\\Rule\\ExcessivePublicCount"@.len() != "PHPMD\\Rule\\Design\\DevelopmentCodeFragment"@.len());
            assert("PHPMD\\Rule\\ExcessivePublicCount"@ != "PHPMD\\Rule\\Design\\DevelopmentCodeFragment"@);
            assert("PHPMD\\Rule\\Design\\TooManyFields"@.len() != "PHPMD\\Rule\\Design\\DevelopmentCodeFragment"@.len());
            assert("PHPMD\\Rule\\Design\\TooManyFields"@ != "PHPMD\\Rule\\Design\\DevelopmentCodeFragment"@);
            assert("PHPMD\\Rule\\Design\\TooManyMethods"@.len() != "PHPMD\\Rule\\Design\\DevelopmentCodeFragment"@.len());
            assert("PHPMD\\Rule\\Design\\TooManyMethods"@ != "PHPMD\\Rule\\Design\\DevelopmentCodeFragment"@);
            assert("PHPMD\\Rule\\Design\\TooManyPublicMethods"@.len() != "PHPMD\\Rule\\Design\\DevelopmentCodeFragment"@.len());
            assert("PHPMD\\Rule\\Design\\TooManyPublicMethods"@ != "PHPMD\\Rule\\Design\\DevelopmentCodeFragment"@);
            assert("PHPMD\\Rule\\Design\\WeightedMethodCount"@.len() != "PHPMD\\Rule\\Design\\DevelopmentCodeFragment"@.len());
            assert("PHPMD\\Rule\\Design\\WeightedMethodCount"@ != "PHPMD\\Rule\\Design\\DevelopmentCodeFragment"@);
            assert("PHPMD\\Rule\\Naming\\ShortClassName"@.len() != "PHPMD\\Rule\\Design\\DevelopmentCodeFragment"@.len());
            assert("PHPMD\\Rule\\Naming\\ShortClassName"@ != "PHPMD\\Rule\\Design\\DevelopmentCodeFragment"@);
            assert("PHPMD\\Rule\\Naming\\LongClassName"@.len() != "PHPMD\\Rule\\Design\\DevelopmentCodeFragment"@.len());
            assert("PHPMD\\Rule\\Naming\\LongClassName"@ != "PHPMD\\Rule\\Design\\DevelopmentCodeFragment"@);
            assert("PHPMD\\Rule\\Naming\\ShortVariable"@.len() != "PHPMD\\Rule\\Design\\DevelopmentCodeFragment"@.len());
            assert("PHPMD\\Rule\\Naming\\ShortVariable"@ != "PHPMD\\Rule\\Design\\DevelopmentCodeFragment"@);
            assert("PHPMD\\Rule\\Naming\\LongVariable"@.len() != "PHPMD\\Rule\\Design\\DevelopmentCodeFragment"@.len());
            assert("PHPMD\\Rule\\Naming\\LongVariable"@ != "PHPMD\\Rule\\Design\\DevelopmentCodeFragment"@);
            assert("PHPMD\\Rule\\Naming\\ShortMethodName"@.len() != "PHPMD\\Rule\\Design\\DevelopmentCodeFragment"@.len());
            assert("PHPMD\\Rule\\Naming\\ShortMethodName"@ != "PHPMD\\Rule\\Design\\DevelopmentCodeFragment"@);
            assert("PHPMD\\Rule\\Naming\\ConstantNamingConventions"@.len() != "PHPMD\\Rule\\Design\\DevelopmentCodeFragment"@.len());
            assert("PHPMD\\Rule\\Naming\\ConstantNamingConventions"@ != "PHPMD\\Rule\\Design\\DevelopmentCodeFragment"@);
            assert("PHPMD\\Rule\\Naming\\BooleanGetMethodName"@.len() != "PHPMD\\Rule\\Design\\DevelopmentCodeFragment"@.len());
            assert("PHPMD\\Rule\\Naming\\BooleanGetMethodName"@ != "PHPMD\\Rule\\Design\\DevelopmentCodeFragment"@);
            assert("PHPMD\\Rule\\UnusedPrivateField"@.len() != "PHPMD\\Rule\\Design\\DevelopmentCodeFragment"@.len());
            assert("PHPMD\\Rule\\UnusedPrivateField"@ != "PHPMD\\Rule\\Design\\DevelopmentCodeFragment"@);
            assert("PHPMD\\Rule\\UnusedLocalVariable"@.len() != "PHPMD\\Rule\\Design\\DevelopmentCodeFragment"@.len());
            assert("PHPMD\\Rule\\UnusedLocalVariable"@ != "PHPMD\\Rule\\Design\\DevelopmentCodeFragment"@);
            assert("PHPMD\\Rule\\UnusedPrivateMethod"@.len() != "PHPMD\\Rule\\Design\\DevelopmentCodeFragment"@.len());
            assert("PHPMD\\Rule\\UnusedPrivateMethod"@ != "PHPMD\\Rule\\Design\\DevelopmentCodeFragment"@);
            assert("PHPMD\\Rule\\UnusedFormalParameter"@.len() != "PHPMD\\Rule\\Design\\DevelopmentCodeFragment"@.len());
            assert("PHPMD\\Rule\\UnusedFormalParameter"@ != "PHPMD\\Rule\\Design\\DevelopmentCodeFragment"@);
            assert("PHPMD\\Rule\\CleanCode\\BooleanArgumentFlag"@.len() != "PHPMD\\Rule\\Design\\DevelopmentCodeFragment"@.len());
            assert("PHPMD\\Rule\\CleanCode\\BooleanArgumentFlag"@ != "PHPMD\\Rule\\Design\\DevelopmentCodeFragment"@);
            assert("PHPMD\\Rule\\CleanCode\\ElseExpression"@.len() != "PHPMD\\Rule\\Design\\DevelopmentCodeFragment"@.len());
            assert("PHPMD\\Rule\\CleanCode\\ElseExpression"@ != "PHPMD\\Rule\\Design\\DevelopmentCodeFragment"@);
            assert("PHPMD\\Rule\\CleanCode\\IfStatementAssignment"@.len() != "PHPMD\\Rule\\Design\\DevelopmentCodeFragment"@.len());
            assert("PHPMD\\Rule\\CleanCode\\IfStatementAssignment"@ != "PHPMD\\Rule\\Design\\DevelopmentCodeFragment"@);
            assert("PHPMD\\Rule\\CleanCode\\DuplicatedArrayKey"@.len() != "PHPMD\\Rule\\Design\\DevelopmentCodeFragment"@.len());
            assert("PHPMD\\Rule\\CleanCode\\DuplicatedArrayKey"@ != "PHPMD\\Rule\\Design\\DevelopmentCodeFragment"@);
            assert("PHPMD\\Rule\\CleanCode\\StaticAccess"@.len() != "PHPMD\\Rule\\Design\\DevelopmentCodeFragment"@.len());
            assert("PHPMD\\Rule\\CleanCode\\StaticAccess"@ != "PHPMD\\Rule\\Design\\DevelopmentCodeFragment"@);
            assert("PHPMD\\Rule\\Design\\ExitExpression"@.len() != "PHPMD\\Rule\\Design\\DevelopmentCodeFragment"@.len());
            assert("PHPMD\\Rule\\Design\\ExitExpression"@ != "PHPMD\\Rule\\Design\\DevelopmentCodeFragment"@);
            assert("PHPMD\\Rule\\Design\\GotoStatement"@.len() != "PHPMD\\Rule\\Design\\DevelopmentCodeFragment"@.len());
            assert("PHPMD\\Rule\\Design\\GotoStatement"@ != "PHPMD\\Rule\\Design\\DevelopmentCodeFragment"@);
            assert("PHPMD\\Rule\\Design\\CountInLoopExpression"@.len() != "PHPMD\\Rule\\Design\\DevelopmentCodeFragment"@.len());
            assert("PHPMD\\Rule\\Design\\CountInLoopExpression"@ != "PHPMD\\Rule\\Design\\DevelopmentCodeFragment"@);
            assert(kind_of_class("PHPMD\\Rule\\Design\\DevelopmentCodeFragment"@) == Some(RuleKind::DevelopmentCodeFragment));
        },
        RuleKind::EmptyCatchBlock => {
            reveal_strlit("PHPMD\\Rule\\CyclomaticComplexity");
            reveal_strlit("PHPMD\\Rule\\Design\\NpathComplexity");
            reveal_strlit("PHPMD\\Rule\\Design\\LongMethod");
            reveal_strlit("PHPMD\\Rule\\Design\\LongClass");
            reveal_strlit("PHPMD\\Rule\\Design\\LongParameterList");
            reveal_strlit("PHPMD\\Rule\\ExcessivePublicCount");
            reveal_strlit("PHPMD\\Rule\\Design\\TooManyFields");
            reveal_strlit("PHPMD\\Rule\\Design\\TooManyMethods");
            reveal_strlit("PHPMD\\Rule\\Design\\TooManyPublicMethods");
            reveal_strlit("PHPMD\\Rule\\Design\\WeightedMethodCount");
            reveal_strlit("PHPMD\\Rule\\Naming\\ShortClassName");
            reveal_strlit("PHPMD\\Rule\\Naming\\LongClassName");
            reveal_strlit("PHPMD\\Rule\\Naming\\ShortVariable");
            reveal_strlit("PHPMD\\Rule\\Naming\\LongVariable");
            reveal_strlit("PHPMD\\Rule\\Naming\\ShortMethodName");
            reveal_strlit("PHPMD\\Rule\\Naming\\ConstantNamingConventions");
            reveal_strlit("PHPMD\\Rule\\Naming\\BooleanGetMethodName");
            reveal_strlit("PHPMD\\Rule\\UnusedPrivateField");
            reveal_strlit("PHPMD\\Rule\\UnusedLocalVariable");
            reveal_strlit("PHPMD\\Rule\\UnusedPrivateMethod");
            reveal_strlit("PHPMD\\Rule\\UnusedFormalParameter");
            reveal_strlit("PHPMD\\Rule\\CleanCode\\BooleanArgumentFlag");
            reveal_strlit("PHPMD\\Rule\\CleanCode\\ElseExpression");
            reveal_strlit("PHPMD\\Rule\\CleanCode\\IfStatementAssignment");
            reveal_strlit("PHPMD\\Rule\\CleanCode\\DuplicatedArrayKey");
            reveal_strlit("PHPMD\\Rule\\CleanCode\\StaticAccess");
            reveal_strlit("PHPMD\\Rule\\Design\\ExitExpression");
            reveal_strlit("PHPMD\\Rule\\Design\\GotoStatement");
            reveal_strlit("PHPMD\\Rule\\Design\\CountInLoopExpression");
            reveal_strlit("PHPMD\\Rule\\Design\\DevelopmentCodeFragment");
            reveal_strlit("PHPMD\\Rule\\Design\\EmptyCatchBlock");
            assert("PHPMD\\Rule\\CyclomaticComplexity"@.len() != "PHPMD\\Rule\\Design\\EmptyCatchBlock"@.len());
            assert("PHPMD\\Rule\\CyclomaticComplexity"@ != "PHPMD\\Rule\\Design\\EmptyCatchBlock"@);
            assert("PHPMD\\Rule\\Design\\NpathComplexity"@[18] != "PHPMD\\Rule\\Design\\EmptyCatchBlock"@[18]);
            assert("PHPMD\\Rule\\Design\\NpathComplexity"@ != "PHPMD\\Rule\\Design\\EmptyCatchBlock"@);
            assert("PHPMD\\Rule\\Design\\LongMethod"@.len() != "PHPMD\\Rule\\Design\\EmptyCatchBlock"@.len());
            assert("PHPMD\\Rule\\Design\\LongMethod"@ != "PHPMD\\Rule\\Design\\EmptyCatchBlock"@);
            assert("PHPMD\\Rule\\Design\\LongClass"@.len() != "PHPMD\\Rule\\Design\\EmptyCatchBlock"@.len());
            assert("PHPMD\\Rule\\Design\\LongClass"@ != "PHPMD\\Rule\\Design\\EmptyCatchBlock"@);
            assert("PHPMD\\Rule\\Design\\LongParameterList"@.len() != "PHPMD\\Rule\\Design\\EmptyCatchBlock"@.len());
            assert("PHPMD\\Rule\\Design\\LongParameterList"@ != "PHPMD\\Rule\\Design\\EmptyCatchBlock"@);
            assert("PHPMD\\Rule\\ExcessivePublicCount"@.len() != "PHPMD\\Rule\\Design\\EmptyCatchBlock"@.len());
            assert("PHPMD\\Rule\\ExcessivePublicCount"@ != "PHPMD\\Rule\\Design\\EmptyCatchBlock"@);
            assert("PHPMD\\Rule\\Design\\TooManyFields"@.len() != "PHPMD\\Rule\\Design\\EmptyCatchBlock"@.len());
            assert("PHPMD\\Rule\\Design\\TooManyFields"@ != "PHPMD\\Rule\\Design\\EmptyCatchBlock"@);
            assert("PHPMD\\Rule\\Design\\TooManyMethods"@.len() != "PHPMD\\Rule\\Design\\EmptyCatchBlock"@.len());
            assert("PHPMD\\Rule\\Design\\TooManyMethods"@ != "PHPMD\\Rule\\Design\\EmptyCatchBlock"@);
            assert("PHPMD\\Rule\\Design\\TooManyPublicMethods"@.len() != "PHPMD\\Rule\\Design\\EmptyCatchBlock"@.len());
            assert("PHPMD\\Rule\\Design\\TooManyPublicMethods"@ != "PHPMD\\Rule\\Design\\EmptyCatchBlock"@);
            assert("PHPMD\\Rule\\Design\\WeightedMethodCount"@.len() != "PHPMD\\Rule\\Design\\EmptyCatchBlock"@.len());
            assert("PHPMD\\Rule\\Design\\WeightedMethodCount"@ != "PHPMD\\Rule\\Design\\EmptyCatchBlock"@);
            assert("PHPMD\\Rule\\Naming\\ShortClassName"@.len() != "PHPMD\\Rule\\Design\\EmptyCatchBlock"@.len());
            assert("PHPMD\\Rule\\Naming\\ShortClassName"@ != "PHPMD\\Rule\\Design\\EmptyCatchBlock"@);
            assert("PHPMD\\Rule\\Naming\\LongClassName"@.len() != "PHPMD\\Rule\\Design\\EmptyCatchBlock"@.len());
            assert("PHPMD\\Rule\\Naming\\LongClassName"@ != "PHPMD\\Rule\\Design\\EmptyCatchBlock"@);
            assert("PHPMD\\Rule\\Naming\\ShortVariable"@.len() != "PHPMD\\Rule\\Design\\EmptyCatchBlock"@.len());
            assert("PHPMD\\Rule\\Naming\\ShortVariable"@ != "PHPMD\\Rule\\Design\\EmptyCatchBlock"@);
            assert("PHPMD\\Rule\\Naming\\LongVariable"@.len() != "PHPMD\\Rule\\Design\\EmptyCatchBlock"@.len());
            assert("PHPMD\\Rule\\Naming\\LongVariable"@ != "PHPMD\\Rule\\Design\\EmptyCatchBlock"@);
            assert("PHPMD\\Rule\\Naming\\ShortMethodName"@[11] != "PHPMD\\Rule\\Design\\EmptyCatchBlock"@[11]);
            assert("PHPMD\\Rule\\Naming\\ShortMethodName"@ != "PHPMD\\Rule\\Design\\EmptyCatchBlock"@);
            assert("PHPMD\\Rule\\Naming\\ConstantNamingConventions"@.len() != "PHPMD\\Rule\\Design\\EmptyCatchBlock"@.len());
            assert("PHPMD\\Rule\\Naming\\ConstantNamingConventions"@ != "PHPMD\\Rule\\Design\\EmptyCatchBlock"@);
            assert("PHPMD\\Rule\\Naming\\BooleanGetMethodName"@.len() != "PHPMD\\Rule\\Design\\EmptyCatchBlock"@.len());
            assert("PHPMD\\Rule\\Naming\\BooleanGetMethodName"@ != "PHPMD\\Rule\\Design\\EmptyCatchBlock"@);
            assert("PHPMD\\Rule\\UnusedPrivateField"@.len() != "PHPMD\\Rule\\Design\\EmptyCatchBlock"@.len());
            assert("PHPMD\\Rule\\UnusedPrivateField"@ != "PHPMD\\Rule\\Design\\EmptyCatchBlock"@);
            assert("PHPMD\\Rule\\UnusedLocalVariable"@.len() != "PHPMD\\Rule\\Design\\EmptyCatchBlock"@.len());
            assert("PHPMD\\Rule\\UnusedLocalVariable"@ != "PHPMD\\Rule\\Design\\EmptyCatchBlock"@);
            assert("PHPMD\\Rule\\UnusedPrivateMethod"@.len() != "PHPMD\\Rule\\Design\\EmptyCatchBlock"@.len());
            assert("PHPMD\\Rule\\UnusedPrivateMethod"@ != "PHPMD\\Rule\\Design\\EmptyCatchBlock"@);
            assert("PHPMD\\Rule\\UnusedFormalParameter"@.len() != "PHPMD\\Rule\\Design\\EmptyCatchBlock"@.len());
            assert("PHPMD\\Rule\\UnusedFormalParameter"@ != "PHPMD\\Rule\\Design\\EmptyCatchBlock"@);
            assert("PHPMD\\Rule\\CleanCode\\BooleanArgumentFlag"@.len() != "PHPMD\\Rule\\Design\\EmptyCatchBlock"@.len());
            assert("PHPMD\\Rule\\CleanCode\\BooleanArgumentFlag"@ != "PHPMD\\Rule\\Design\\EmptyCatchBlock"@);
            assert("PHPMD\\Rule\\CleanCode\\ElseExpression"@.len() != "PHPMD\\Rule\\Design\\EmptyCatchBlock"@.len());
            assert("PHPMD\\Rule\\CleanCode\\ElseExpression"@ != "PHPMD\\Rule\\Design\\EmptyCatchBlock"@);
            assert("PHPMD\\Rule\\CleanCode\\IfStatementAssignment"@.len() != "PHPMD\\Rule\\Design\\EmptyCatchBlock"@.len());
            assert("PHPMD\\Rule\\CleanCode\\IfStatementAssignment"@ != "PHPMD\\Rule\\Design\\EmptyCatchBlock"@);
            assert("PHPMD\\Rule\\CleanCode\\DuplicatedArrayKey"@.len() != "PHPMD\\Rule\\Design\\EmptyCatchBlock"@.len());
            assert("PHPMD\\Rule\\CleanCode\\DuplicatedArrayKey"@ != "PHPMD\\Rule\\Design\\EmptyCatchBlock"@);
            assert("PHPMD\\Rule\\CleanCode\\StaticAccess"@[11] != "PHPMD\\Rule\\Design\\EmptyCatchBlock"@[11]);
            assert("PHPMD\\Rule\\CleanCode\\StaticAccess"@ != "PHPMD\\Rule\\Design\\EmptyCatchBlock"@);
            assert("PHPMD\\Rule\\Design\\ExitExpression"@.len() != "PHPMD\\Rule\\Design\\EmptyCatchBlock"@.len());
            assert("PHPMD\\Rule\\Design\\ExitExpression"@ != "PHPMD\\Rule\\Design\\EmptyCatchBlock"@);
            assert("PHPMD\\Rule\\Design\\GotoStatement"@.len() != "PHPMD\\Rule\\Design\\EmptyCatchBlock"@.len());
            assert("PHPMD\\Rule\\Design\\GotoStatement"@ != "PHPMD\\Rule\\Design\\EmptyCatchBlock"@);
            assert("PHPMD\\Rule\\Design\\CountInLoopExpression"@.len() != "PHPMD\\Rule\\Design\\EmptyCatchBlock"@.len());
            assert("PHPMD\\Rule\\Design\\CountInLoopExpression"@ != "PHPMD\\Rule\\Design\\EmptyCatchBlock"@);
            assert("PHPMD\\Rule\\Design\\DevelopmentCodeFragment"@.len() != "PHPMD\\Rule\\Design\\EmptyCatchBlock"@.len());
            assert("PHPMD\\Rule\\Design\\DevelopmentCodeFragment"@ != "PHPMD\\Rule\\Design\\EmptyCatchBlock"@);
            assert(kind_of_class("PHPMD\\Rule\\Design\\EmptyCatchBlock"@) == Some(RuleKind::EmptyCatchBlock));
        },
        RuleKind::CouplingBetweenObjects => {
            reveal_strlit("PHPMD\\Rule\\CyclomaticComplexity");
            reveal_strlit("PHPMD\\Rule\\Design\\NpathComplexity");
            reveal_strlit("PHPMD\\Rule\\Design\\LongMethod");
            reveal_strlit("PHPMD\\Rule\\Design\\LongClass");
            reveal_strlit("PHPMD\\Rule\\Design\\LongParameterList");
            reveal_strlit("PHPMD\\Rule\\ExcessivePublicCount");
            reveal_strlit("PHPMD\\Rule\\Design\\TooManyFields");
            reveal_strlit("PHPMD\\Rule\\Design\\TooManyMethods");
            reveal_strlit("PHPMD\\Rule\\Design\\TooManyPublicMethods");
            reveal_strlit("PHPMD\\Rule\\Design\\WeightedMethodCount");
            reveal_strlit("PHPMD\\Rule\\Naming\\ShortClassName");
            reveal_strlit("PHPMD\\Rule\\Naming\\LongClassName");
            reveal_strlit("PHPMD\\Rule\\Naming\\ShortVariable");
            reveal_strlit("PHPMD\\Rule\\Naming\\LongVariable");
            reveal_strlit("PHPMD\\Rule\\Naming\\ShortMethodName");
            reveal_strlit("PHPMD\\Rule\\Naming\\ConstantNamingConventions");
            reveal_strlit("PHPMD\\Rule\\Naming\\BooleanGetMethodName");
            reveal_strlit("PHPMD\\Rule\\UnusedPrivateField");
            reveal_strlit("PHPMD\\Rule\\UnusedLocalVariable");
            reveal_strlit("PHPMD\\Rule\\UnusedPrivateMethod");
            reveal_strlit("PHPMD\\Rule\\UnusedFormalParameter");
            reveal_strlit("PHPMD\\Rule\\CleanCode\\BooleanArgumentFlag");
            reveal_strlit("PHPMD\\Rule\\CleanCode\\ElseExpression");
            reveal_strlit("PHPMD\\Rule\\CleanCode\\IfStatementAssignment");
            reveal_strlit("PHPMD\\Rule\\CleanCode\\DuplicatedArrayKey");
            reveal_strlit("PHPMD\\Rule\\CleanCode\\StaticAccess");
            reveal_strlit("PHPMD\\Rule\\Design\\ExitExpression");
            reveal_strlit("PHPMD\\Rule\\Design\\GotoStatement");
            reveal_strlit("PHPMD\\Rule\\Design\\CountInLoopExpression");
            reveal_strlit("PHPMD\\Rule\\Design\\DevelopmentCodeFragment");
            reveal_strlit("PHPMD\\Rule\\Design\\EmptyCatchBlock");
            reveal_strlit("PHPMD\\Rule\\Design\\CouplingBetweenObjects");
            assert("PHPMD\\Rule\\CyclomaticComplexity"@.len() != "PHPMD\\Rule\\Design\\CouplingBetweenObjects"@.len());
            assert("PHPMD\\Rule\\CyclomaticComplexity"@ != "PHPMD\\Rule\\Design\\CouplingBetweenObjects"@);
            assert("PHPMD\\Rule\\Design\\NpathComplexity"@.len() != "PHPMD\\Rule\\Design\\CouplingBetweenObjects"@.len());
            assert("PHPMD\\Rule\\Design\\NpathComplexity"@ != "PHPMD\\Rule\\Design\\CouplingBetweenObjects"@);
            assert("PHPMD\\Rule\\Design\\LongMethod"@.len() != "PHPMD\\Rule\\Design\\CouplingBetweenObjects"@.len());
            assert("PHPMD\\Rule\\Design\\LongMethod"@ != "PHPMD\\Rule\\Design\\CouplingBetweenObjects"@);
            assert("PHPMD\\Rule\\Design\\LongClass"@.len() != "PHPMD\\Rule\\Design\\CouplingBetweenObjects"@.len());
            assert("PHPMD\\Rule\\Design\\LongClass"@ != "PHPMD\\Rule\\Design\\CouplingBetweenObjects"@);
            assert("PHPMD\\Rule\\Design\\LongParameterList"@.len() != "PHPMD\\Rule\\Design\\CouplingBetweenObjects"@.len());
            assert("PHPMD\\Rule\\Design\\LongParameterList"@ != "PHPMD\\Rule\\Design\\CouplingBetweenObjects"@);
            assert("PHPMD\\Rule\\ExcessivePublicCount"@.len() != "PHPMD\\Rule\\Design\\CouplingBetweenObjects"@.len());
            assert("PHPMD\\Rule\\ExcessivePublicCount"@ != "PHPMD\\Rule\\Design\\CouplingBetweenObjects"@);
            assert("PHPMD\\Rule\\Design\\TooManyFields"@.len() != "PHPMD\\Rule\\Design\\CouplingBetweenObjects"@.len());
            assert("PHPMD\\Rule\\Design\\TooManyFields"@ != "PHPMD\\Rule\\Design\\CouplingBetweenObjects"@);
            assert("PHPMD\\Rule\\Design\\TooManyMethods"@.len() != "PHPMD\\Rule\\Design\\CouplingBetweenObjects"@.len());
            assert("PHPMD\\Rule\\Design\\TooManyMethods"@ != "PHPMD\\Rule\\Design\\CouplingBetweenObjects"@);
            assert("PHPMD\\Rule\\Design\\TooManyPublicMethods"@.len() != "PHPMD\\Rule\\Design\\CouplingBetweenObjects"@.len());
            assert("PHPMD\\Rule\\Design\\TooManyPublicMethods"@ != "PHPMD\\Rule\\Design\\CouplingBetweenObjects"@);
            assert("PHPMD\\Rule\\Design\\WeightedMethodCount"@.len() != "PHPMD\\Rule\\Design\\CouplingBetweenObjects"@.len());
            assert("PHPMD\\Rule\\Design\\WeightedMethodCount"@ != "PHPMD\\Rule\\Design\\CouplingBetweenObjects"@);
            assert("PHPMD\\Rule\\Naming\\ShortClassName"@.len() != "PHPMD\\Rule\\Design\\CouplingBetweenObjects"@.len());
            assert("PHPMD\\Rule\\Naming\\ShortClassName"@ != "PHPMD\\Rule\\Design\\CouplingBetweenObjects"@);
            assert("PHPMD\\Rule\\Naming\\LongClassName"@.len() != "PHPMD\\Rule\\Design\\CouplingBetweenObjects"@.len());
            assert("PHPMD\\Rule\\Naming\\LongClassName"@ != "PHPMD\\Rule\\Design\\CouplingBetweenObjects"@);
            assert("PHPMD\\Rule\\Naming\\ShortVariable"@.len() != "PHPMD\\Rule\\Design\\CouplingBetweenObjects"@.len());
            assert("PHPMD\\Rule\\Naming\\ShortVariable"@ != "PHPMD\\Rule\\Design\\CouplingBetweenObjects"@);
            assert("PHPMD\\Rule\\Naming\\LongVariable"@.len() != "PHPMD\\Rule\\Design\\CouplingBetweenObjects"@.len());
            assert("PHPMD\\Rule\\Naming\\LongVariable"@ != "PHPMD\\Rule\\Design\\CouplingBetweenObjects"@);
            assert("PHPMD\\Rule\\Naming\\ShortMethodName"@.len() != "PHPMD\\Rule\\Design\\CouplingBetweenObjects"@.len());
            assert("PHPMD\\Rule\\Naming\\ShortMethodName"@ != "PHPMD\\Rule\\Design\\CouplingBetweenObjects"@);
            assert("PHPMD\\Rule\\Naming\\ConstantNamingConventions"@.len() != "PHPMD\\Rule\\Design\\CouplingBetweenObjects"@.len());
            assert("PHPMD\\Rule\\Naming\\ConstantNamingConventions"@ != "PHPMD\\Rule\\Design\\CouplingBetweenObjects"@);
            assert("PHPMD\\Rule\\Naming\\BooleanGetMethodName"@.len() != "PHPMD\\Rule\\Design\\CouplingBetweenObjects"@.len());
            assert("PHPMD\\Rule\\Naming\\BooleanGetMethodName"@ != "PHPMD\\Rule\\Design\\CouplingBetweenObjects"@);
            assert("PHPMD\\Rule\\UnusedPrivateField"@.len() != "PHPMD\\Rule\\Design\\CouplingBetweenObjects"@.len());
            assert("PHPMD\\Rule\\UnusedPrivateField"@ != "PHPMD\\Rule\\Design\\CouplingBetweenObjects"@);
            assert("PHPMD\\Rule\\UnusedLocalVariable"@.len() != "PHPMD\\Rule\\Design\\CouplingBetweenObjects"@.len());
            assert("PHPMD\\Rule\\UnusedLocalVariable"@ != "PHPMD\\Rule\\Design\\CouplingBetweenObjects"@);
            assert("PHPMD\\Rule\\UnusedPrivateMethod"@.len() != "PHPMD\\Rule\\Design\\CouplingBetweenObjects"@.len());
            assert("PHPMD\\Rule\\UnusedPrivateMethod"@ != "PHPMD\\Rule\\Design\\CouplingBetweenObjects"@);
            assert("PHPMD\\Rule\\UnusedFormalParameter"@.len() != "PHPMD\\Rule\\Design\\CouplingBetweenObjects"@.len());
            assert("PHPMD\\Rule\\UnusedFormalParameter"@ != "PHPMD\\Rule\\Design\\CouplingBetweenObjects"@);
            assert("PHPMD\\Rule\\CleanCode\\BooleanArgumentFlag"@[11] != "PHPMD\\Rule\\Design\\CouplingBetweenObjects"@[11]);
            assert("PHPMD\\Rule\\CleanCode\\BooleanArgumentFlag"@ != "PHPMD\\Rule\\Design\\CouplingBetweenObjects"@);
            assert("PHPMD\\Rule\\CleanCode\\ElseExpression"@.len() != "PHPMD\\Rule\\Design\\CouplingBetweenObjects"@.len());
            assert("PHPMD\\Rule\\CleanCode\\ElseExpression"@ != "PHPMD\\Rule\\Design\\CouplingBetweenObjects"@);
            assert("PHPMD\\Rule\\CleanCode\\IfStatementAssignment"@.len() != "PHPMD\\Rule\\Design\\CouplingBetweenObjects"@.len());
            assert("PHPMD\\Rule\\CleanCode\\IfStatementAssignment"@ != "PHPMD\\Rule\\Design\\CouplingBetweenObjects"@);
            assert("PHPMD\\Rule\\CleanCode\\DuplicatedArrayKey"@.len() != "PHPMD\\Rule\\Design\\CouplingBetweenObjects"@.len());
            assert("PHPMD\\Rule\\CleanCode\\DuplicatedArrayKey"@ != "PHPMD\\Rule\\Design\\CouplingBetweenObjects"@);
            assert("PHPMD\\Rule\\CleanCode\\StaticAccess"@.len() != "PHPMD\\Rule\\Design\\CouplingBetweenObjects"@.len());
            assert("PHPMD\\Rule\\CleanCode\\StaticAccess"@ != "PHPMD\\Rule\\Design\\CouplingBetweenObjects"@);
            assert("PHPMD\\Rule\\Design\\ExitExpression"@.len() != "PHPMD\\Rule\\Design\\CouplingBetweenObjects"@.len());
            assert("PHPMD\\Rule\\Design\\ExitExpression"@ != "PHPMD\\Rule\\Design\\CouplingBetweenObjects"@);
            assert("PHPMD\\Rule\\Design\\GotoStatement"@.len() != "PHPMD\\Rule\\Design\\CouplingBetweenObjects"@.len());
            assert("PHPMD\\Rule\\Design\\GotoStatement"@ != "PHPMD\\Rule\\Design\\CouplingBetweenObjects"@);
            assert("PHPMD\\Rule\\Design\\CountInLoopExpression"@.len() != "PHPMD\\Rule\\Design\\CouplingBetweenObjects"@.len());
            assert("PHPMD\\Rule\\Design\\CountInLoopExpression"@ != "PHPMD\\Rule\\Design\\CouplingBetweenObjects"@);
            assert("PHPMD\\Rule\\Design\\DevelopmentCodeFragment"@.len() != "PHPMD\\Rule\\Design\\CouplingBetweenObjects"@.len());
            assert("PHPMD\\Rule\\Design\\DevelopmentCodeFragment"@ != "PHPMD\\Rule\\Design\\CouplingBetweenObjects"@);
            assert("PHPMD\\Rule\\Design\\EmptyCatchBlock"@.len() != "PHPMD\\Rule\\Design\\CouplingBetweenObjects"@.len());
            assert("PHPMD\\Rule\\Design\\EmptyCatchBlock"@ != "PHPMD\\Rule\\Design\\CouplingBetweenObjects"@);
            assert(kind_of_class("PHPMD\\Rule\\Design\\CouplingBetweenObjects"@) == Some(RuleKind::CouplingBetweenObjects));
        },
        RuleKind::GlobalVariable => {
            reveal_strlit("PHPMD\\Rule\\CyclomaticComplexity");
            reveal_strlit("PHPMD\\Rule\\Design\\NpathComplexity");
            reveal_strlit("PHPMD\\Rule\\Design\\LongMethod");
            reveal_strlit("PHPMD\\Rule\\Design\\LongClass");
            reveal_strlit("PHPMD\\Rule\\Design\\LongParameterList");
            reveal_strlit("PHPMD\\Rule\\ExcessivePublicCount");
            reveal_strlit("PHPMD\\Rule\\Design\\TooManyFields");
            reveal_strlit("PHPMD\\Rule\\Design\\TooManyMethods");
            reveal_strlit("PHPMD\\Rule\\Design\\TooManyPublicMethods");
            reveal_strlit("PHPMD\\Rule\\Design\\WeightedMethodCount");
            reveal_strlit("PHPMD\\Rule\\Naming\\ShortClassName");
            reveal_strlit("PHPMD\\Rule\\Naming\\LongClassName");
            reveal_strlit("PHPMD\\Rule\\Naming\\ShortVariable");
            reveal_strlit("PHPMD\\Rule\\Naming\\LongVariable");
            reveal_strlit("PHPMD\\Rule\\Naming\\ShortMethodName");
            reveal_strlit("PHPMD\\Rule\\Naming\\ConstantNamingConventions");
            reveal_strlit("PHPMD\\Rule\\Naming\\BooleanGetMethodName");
            reveal_strlit("PHPMD\\Rule\\UnusedPrivateField");
            reveal_strlit("PHPMD\\Rule\\UnusedLocalVariable");
            reveal_strlit("PHPMD\\Rule\\UnusedPrivateMethod");
            reveal_strlit("PHPMD\\Rule\\UnusedFormalParameter");
            reveal_strlit("PHPMD\\Rule\\CleanCode\\BooleanArgumentFlag");
            reveal_strlit("PHPMD\\Rule\\CleanCode\\ElseExpression");
            reveal_strlit("PHPMD\\Rule\\CleanCode\\IfStatementAssignment");
            reveal_strlit("PHPMD\\Rule\\CleanCode\\DuplicatedArrayKey");
            reveal_strlit("PHPMD\\Rule\\CleanCode\\StaticAccess");
            reveal_strlit("PHPMD\\Rule\\Design\\ExitExpression");
            reveal_strlit("PHPMD\\Rule\\Design\\GotoStatement");
            reveal_strlit("PHPMD\\Rule\\Design\\CountInLoopExpression");
            reveal_strlit("PHPMD\\Rule\\Design\\DevelopmentCodeFragment");
            reveal_strlit("PHPMD\\Rule\\Design\\EmptyCatchBlock");
            reveal_strlit("PHPMD\\Rule\\Design\\CouplingBetweenObjects");
            reveal_strlit("PHPMD\\Rule\\Design\\GlobalVariable");
            assert("PHPMD\\Rule\\CyclomaticComplexity"@.len() != "PHPMD\\Rule\\Design\\GlobalVariable"@.len());
            assert("PHPMD\\Rule\\CyclomaticComplexity"@ != "PHPMD\\Rule\\Design\\GlobalVariable"@);
            assert("PHPMD\\Rule\\Design\\NpathComplexity"@.len() != "PHPMD\\Rule\\Design\\GlobalVariable"@.len());
            assert("PHPMD\\Rule\\Design\\NpathComplexity"@ != "PHPMD\\Rule\\Design\\GlobalVariable"@);
            assert("PHPMD\\Rule\\Design\\LongMethod"@.len() != "PHPMD\\Rule\\Design\\GlobalVariable"@.len());
            assert("PHPMD\\Rule\\Design\\LongMethod"@ != "PHPMD\\Rule\\Design\\GlobalVariable"@);
            assert("PHPMD\\Rule\\Design\\LongClass"@.len() != "PHPMD\\Rule\\Design\\GlobalVariable"@.len());
            assert("PHPMD\\Rule\\Design\\LongClass"@ != "PHPMD\\Rule\\Design\\GlobalVariable"@);
            assert("PHPMD\\Rule\\Design\\LongParameterList"@.len() != "PHPMD\\Rule\\Design\\GlobalVariable"@.len());
            assert("PHPMD\\Rule\\Design\\LongParameterList"@ != "PHPMD\\Rule\\Design\\GlobalVariable"@);
            assert("PHPMD\\Rule\\ExcessivePublicCount"@.len() != "PHPMD\\Rule\\Design\\GlobalVariable"@.len());
            assert("PHPMD\\Rule\\ExcessivePublicCount"@ != "PHPMD\\Rule\\Design\\GlobalVariable"@);
            assert("PHPMD\\Rule\\Design\\TooManyFields"@.len() != "PHPMD\\Rule\\Design\\GlobalVariable"@.len());
            assert("PHPMD\\Rule\\Design\\TooManyFields"@ != "PHPMD\\Rule\\Design\\GlobalVariable"@);
            assert("PHPMD\\Rule\\Design\\TooManyMethods"@[18] != "PHPMD\\Rule\\Design\\GlobalVariable"@[18]);
            assert("PHPMD\\Rule\\Design\\TooManyMethods"@ != "PHPMD\\Rule\\Design\\GlobalVariable"@);
            assert("PHPMD\\Rule\\Design\\TooManyPublicMethods"@.len() != "PHPMD\\Rule\\Design\\GlobalVariable"@.len());
            assert("PHPMD\\Rule\\Design\\TooManyPublicMethods"@ != "PHPMD\\Rule\\Design\\GlobalVariable"@);
            assert("PHPMD\\Rule\\Design\\WeightedMethodCount"@.len() != "PHPMD\\Rule\\Design\\GlobalVariable"@.len());
            assert("PHPMD\\Rule\\Design\\WeightedMethodCount"@ != "PHPMD\\Rule\\Design\\GlobalVariable"@);
            assert("PHPMD\\Rule\\Naming\\ShortClassName"@[11] != "PHPMD\\Rule\\Design\\GlobalVariable"@[11]);
            assert("PHPMD\\Rule\\Naming\\ShortClassName"@ != "PHPMD\\Rule\\Design\\GlobalVariable"@);
            assert("PHPMD\\Rule\\Naming\\LongClassName"@.len() != "PHPMD\\Rule\\Design\\GlobalVariable"@.len());
            assert("PHPMD\\Rule\\Naming\\LongClassName"@ != "PHPMD\\Rule\\Design\\GlobalVariable"@);
            assert("PHPMD\\Rule\\Naming\\ShortVariable"@.len() != "PHPMD\\Rule\\Design\\GlobalVariable"@.len());
            assert("PHPMD\\Rule\\Naming\\ShortVariable"@ != "PHPMD\\Rule\\Design\\GlobalVariable"@);
            assert("PHPMD\\Rule\\Naming\\LongVariable"@.len() != "PHPMD\\Rule\\Design\\GlobalVariable"@.len());
            assert("PHPMD\\Rule\\Naming\\LongVariable"@ != "PHPMD\\Rule\\Design\\GlobalVariable"@);
            assert("PHPMD\\Rule\\Naming\\ShortMethodName"@.len() != "PHPMD\\Rule\\Design\\GlobalVariable"@.len());
            assert("PHPMD\\Rule\\Naming\\ShortMethodName"@ != "PHPMD\\Rule\\Design\\GlobalVariable"@);
            assert("PHPMD\\Rule\\Naming\\ConstantNamingConventions"@.len() != "PHPMD\\Rule\\Design\\GlobalVariable"@.len());
            assert("PHPMD\\Rule\\Naming\\ConstantNamingConventions"@ != "PHPMD\\Rule\\Design\\GlobalVariable"@);
            assert("PHPMD\\Rule\\Naming\\BooleanGetMethodName"@.len() != "PHPMD\\Rule\\Design\\GlobalVariable"@.len());
            assert("PHPMD\\Rule\\Naming\\BooleanGetMethodName"@ != "PHPMD\\Rule\\Design\\GlobalVariable"@);
            assert("PHPMD\\Rule\\UnusedPrivateField"@.len() != "PHPMD\\Rule\\Design\\GlobalVariable"@.len());
            assert("PHPMD\\Rule\\UnusedPrivateField"@ != "PHPMD\\Rule\\Design\\GlobalVariable"@);
            assert("PHPMD\\Rule\\UnusedLocalVariable"@.len() != "PHPMD\\Rule\\Design\\GlobalVariable"@.len());
            assert("PHPMD\\Rule\\UnusedLocalVariable"@ != "PHPMD\\Rule\\Design\\GlobalVariable"@);
            assert("PHPMD\\Rule\\UnusedPrivateMethod"@.len() != "PHPMD\\Rule\\Design\\GlobalVariable"@.len());
            assert("PHPMD\\Rule\\UnusedPrivateMethod"@ != "PHPMD\\Rule\\Design\\GlobalVariable"@);
            assert("PHPMD\\Rule\\UnusedFormalParameter"@[11] != "PHPMD\\Rule\\Design\\GlobalVariable"@[11]);
            assert("PHPMD\\Rule\\UnusedFormalParameter"@ != "PHPMD\\Rule\\Design\\GlobalVariable"@);
            assert("PHPMD\\Rule\\CleanCode\\BooleanArgumentFlag"@.len() != "PHPMD\\Rule\\Design\\GlobalVariable"@.len());
            assert("PHPMD\\Rule\\CleanCode\\BooleanArgumentFlag"@ != "PHPMD\\Rule\\Design\\GlobalVariable"@);
            assert("PHPMD\\Rule\\CleanCode\\ElseExpression"@.len() != "PHPMD\\Rule\\Design\\GlobalVariable"@.len());
            assert("PHPMD\\Rule\\CleanCode\\ElseExpression"@ != "PHPMD\\Rule\\Design\\GlobalVariable"@);
            assert("PHPMD\\Rule\\CleanCode\\IfStatementAssignment"@.len() != "PHPMD\\Rule\\Design\\GlobalVariable"@.len());
            assert("PHPMD\\Rule\\CleanCode\\IfStatementAssignment"@ != "PHPMD\\Rule\\Design\\GlobalVariable"@);
            assert("PHPMD\\Rule\\CleanCode\\DuplicatedArrayKey"@.len() != "PHPMD\\Rule\\Design\\GlobalVariable"@.len());
            assert("PHPMD\\Rule\\CleanCode\\DuplicatedArrayKey"@ != "PHPMD\\Rule\\Design\\GlobalVariable"@);
            assert("PHPMD\\Rule\\CleanCode\\StaticAccess"@.len() != "PHPMD\\Rule\\Design\\GlobalVariable"@.len());
            assert("PHPMD\\Rule\\CleanCode\\StaticAccess"@ != "PHPMD\\Rule\\Design\\GlobalVariable"@);
            assert("PHPMD\\Rule\\Design\\ExitExpression"@[18] != "PHPMD\\Rule\\Design\\GlobalVariable"@[18]);
            assert("PHPMD\\Rule\\Design\\ExitExpression"@ != "PHPMD\\Rule\\Design\\GlobalVariable"@);
            assert("PHPMD\\Rule\\Design\\GotoStatement"@.len() != "PHPMD\\Rule\\Design\\GlobalVariable"@.len());
            assert("PHPMD\\Rule\\Design\\GotoStatement"@ != "PHPMD\\Rule\\Design\\GlobalVariable"@);
            assert("PHPMD\\Rule\\Design\\CountInLoopExpression"@.len() != "PHPMD\\Rule\\Design\\GlobalVariable"@.len());
            assert("PHPMD\\Rule\\Design\\CountInLoopExpression"@ != "PHPMD\\Rule\\Design\\GlobalVariable"@);
            assert("PHPMD\\Rule\\Design\\DevelopmentCodeFragment"@.len() != "PHPMD\\Rule\\Design\\GlobalVariable"@.len());
            assert("PHPMD\\Rule\\Design\\DevelopmentCodeFragment"@ != "PHPMD\\Rule\\Design\\GlobalVariable"@);
            assert("PHPMD\\Rule\\Design\\EmptyCatchBlock"@.len() != "PHPMD\\Rule\\Design\\GlobalVariable"@.len());
            assert("PHPMD\\Rule\\Design\\EmptyCatchBlock"@ != "PHPMD\\Rule\\Design\\GlobalVariable"@);
            assert("PHPMD\\Rule\\Design\\CouplingBetweenObjects"@.len() != "PHPMD\\Rule\\Design\\GlobalVariable"@.len());
            assert("PHPMD\\Rule\\Design\\CouplingBetweenObjects"@ != "PHPMD\\Rule\\Design\\GlobalVariable"@);
            assert(kind_of_class("PHPMD\\Rule\\Design\\GlobalVariable"@) == Some(RuleKind::GlobalVariable));
        },
        RuleKind::LackOfCohesionOfMethods => {
            reveal_strlit("PHPMD\\Rule\\CyclomaticComplexity");
            reveal_strlit("PHPMD\\Rule\\Design\\NpathComplexity");
            reveal_strlit("PHPMD\\Rule\\Design\\LongMethod");
            reveal_strlit("PHPMD\\Rule\\Design\\LongClass");
            reveal_strlit("PHPMD\\Rule\\Design\\LongParameterList");
            reveal_strlit("PHPMD\\Rule\\ExcessivePublicCount");
            reveal_strlit("PHPMD\\Rule\\Design\\TooManyFields");
            reveal_strlit("PHPMD\\Rule\\Design\\TooManyMethods");
            reveal_strlit("PHPMD\\Rule\\Design\\TooManyPublicMethods");
            reveal_strlit("PHPMD\\Rule\\Design\\WeightedMethodCount");
            reveal_strlit("PHPMD\\Rule\\Naming\\ShortClassName");
            reveal_strlit("PHPMD\\Rule\\Naming\\LongClassName");
            reveal_strlit("PHPMD\\Rule\\Naming\\ShortVariable");
            reveal_strlit("PHPMD\\Rule\\Naming\\LongVariable");
            reveal_strlit("PHPMD\\Rule\\Naming\\ShortMethodName");
            reveal_strlit("PHPMD\\Rule\\Naming\\ConstantNamingConventions");
            reveal_strlit("PHPMD\\Rule\\Naming\\BooleanGetMethodName");
            reveal_strlit("PHPMD\\Rule\\UnusedPrivateField");
            reveal_strlit("PHPMD\\Rule\\UnusedLocalVariable");
            reveal_strlit("PHPMD\\Rule\\UnusedPrivateMethod");
            reveal_strlit("PHPMD\\Rule\\UnusedFormalParameter");
            reveal_strlit("PHPMD\\Rule\\CleanCode\\BooleanArgumentFlag");
            reveal_strlit("PHPMD\\Rule\\CleanCode\\ElseExpression");
            reveal_strlit("PHPMD\\Rule\\CleanCode\\IfStatementAssignment");
            reveal_strlit("PHPMD\\Rule\\CleanCode\\DuplicatedArrayKey");
            reveal_strlit("PHPMD\\Rule\\CleanCode\\StaticAccess");
            reveal_strlit("PHPMD\\Rule\\Design\\ExitExpression");
            reveal_strlit("PHPMD\\Rule\\Design\\GotoStatement");
            reveal_strlit("PHPMD\\Rule\\Design\\CountInLoopExpression");
            reveal_strlit("PHPMD\\Rule\\Design\\DevelopmentCodeFragment");
            reveal_strlit("PHPMD\\Rule\\Design\\EmptyCatchBlock");
            reveal_strlit("PHPMD\\Rule\\Design\\CouplingBetweenObjects");
            reveal_strlit("PHPMD\\Rule\\Design\\GlobalVariable");
            reveal_strlit("PHPMD\\Rule\\Design\\LackOfCohesionOfMethods");
            assert("PHPMD\\Rule\\CyclomaticComplexity"@.len() != "PHPMD\\Rule\\Design\\LackOfCohesionOfMethods"@.len());
            assert("PHPMD\\Rule\\CyclomaticComplexity"@ != "PHPMD\\Rule\\Design\\LackOfCohesionOfMethods"@);
            assert("PHPMD\\Rule\\Design\\NpathComplexity"@.len() != "PHPMD\\Rule\\Design\\LackOfCohesionOfMethods"@.len());
            assert("PHPMD\\Rule\\Design\\NpathComplexity"@ != "PHPMD\\Rule\\Design\\LackOfCohesionOfMethods"@);
            assert("PHPMD\\Rule\\Design\\LongMethod"@.len() != "PHPMD\\Rule\\Design\\LackOfCohesionOfMethods"@.len());
            assert("PHPMD\\Rule\\Design\\LongMethod"@ != "PHPMD\\Rule\\Design\\LackOfCohesionOfMethods"@);
            assert("PHPMD\\Rule\\Design\\LongClass"@.len() != "PHPMD\\Rule\\Design\\LackOfCohesionOfMethods"@.len());
            assert("PHPMD\\Rule\\Design\\LongClass"@ != "PHPMD\\Rule\\Design\\LackOfCohesionOfMethods"@);
            assert("PHPMD\\Rule\\Design\\LongParameterList"@.len() != "PHPMD\\Rule\\Design\\LackOfCohesionOfMethods"@.len());
            assert("PHPMD\\Rule\\Design\\LongParameterList"@ != "PHPMD\\Rule\\Design\\LackOfCohesionOfMethods"@);
            assert("PHPMD\\Rule\\ExcessivePublicCount"@.len() != "PHPMD\\Rule\\Design\\LackOfCohesionOfMethods"@.len());
            assert("PHPMD\\Rule\\ExcessivePublicCount"@ != "PHPMD\\Rule\\Design\\LackOfCohesionOfMethods"@);
            assert("PHPMD\\Rule\\Design\\TooManyFields"@.len() != "PHPMD\\Rule\\Design\\LackOfCohesionOfMethods"@.len());
            assert("PHPMD\\Rule\\Design\\TooManyFields"@ != "PHPMD\\Rule\\Design\\LackOfCohesionOfMethods"@);
            assert("PHPMD\\Rule\\Design\\TooManyMethods"@.len() != "PHPMD\\Rule\\Design\\LackOfCohesionOfMethods"@.len());
            assert("PHPMD\\Rule\\Design\\TooManyMethods"@ != "PHPMD\\Rule\\Design\\LackOfCohesionOfMethods"@);
            assert("PHPMD\\Rule\\Design\\TooManyPublicMethods"@.len() != "PHPMD\\Rule\\Design\\LackOfCohesionOfMethods"@.len());
            assert("PHPMD\\Rule\\Design\\TooManyPublicMethods"@ != "PHPMD\\Rule\\Design\\LackOfCohesionOfMethods"@);
            assert("PHPMD\\Rule\\Design\\WeightedMethodCount"@.len() != "PHPMD\\Rule\\Design\\LackOfCohesionOfMethods"@.len());
            assert("PHPMD\\Rule\\Design\\WeightedMethodCount"@ != "PHPMD\\Rule\\Design\\LackOfCohesionOfMethods"@);
            assert("PHPMD\\Rule\\Naming\\ShortClassName"@.len() != "PHPMD\\Rule\\Design\\LackOfCohesionOfMethods"@.len());
            assert("PHPMD\\Rule\\Naming\\ShortClassName"@ != "PHPMD\\Rule\\Design\\LackOfCohesionOfMethods"@);
            assert("PHPMD\\Rule\\Naming\\LongClassName"@.len() != "PHPMD\\Rule\\Design\\LackOfCohesionOfMethods"@.len());
            assert("PHPMD\\Rule\\Naming\\LongClassName"@ != "PHPMD\\Rule\\Design\\LackOfCohesionOfMethods"@);
            assert("PHPMD\\Rule\\Naming\\ShortVariable"@.len() != "PHPMD\\Rule\\Design\\LackOfCohesionOfMethods"@.len());
            assert("PHPMD\\Rule\\Naming\\ShortVariable"@ != "PHPMD\\Rule\\Design\\LackOfCohesionOfMethods"@);
            assert("PHPMD\\Rule\\Naming\\LongVariable"@.len() != "PHPMD\\Rule\\Design\\LackOfCohesionOfMethods"@.len());
            assert("PHPMD\\Rule\\Naming\\LongVariable"@ != "PHPMD\\Rule\\Design\\LackOfCohesionOfMethods"@);
            assert("PHPMD\\Rule\\Naming\\ShortMethodName"@.len() != "PHPMD\\Rule\\Design\\LackOfCohesionOfMethods"@.len());
            assert("PHPMD\\Rule\\Naming\\ShortMethodName"@ != "PHPMD\\Rule\\Design\\LackOfCohesionOfMethods"@);
            assert("PHPMD\\Rule\\Naming\\ConstantNamingConventions"@.len() != "PHPMD\\Rule\\Design\\LackOfCohesionOfMethods"@.len());
            assert("PHPMD\\Rule\\Naming\\ConstantNamingConventions"@ != "PHPMD\\Rule\\Design\\LackOfCohesionOfMethods"@);
            assert("PHPMD\\Rule\\Naming\\BooleanGetMethodName"@.len() != "PHPMD\\Rule\\Design\\LackOfCohesionOfMethods"@.len());
            assert("PHPMD\\Rule\\Naming\\BooleanGetMethodName"@ != "PHPMD\\Rule\\Design\\LackOfCohesionOfMethods"@);
            assert("PHPMD\\Rule\\UnusedPrivateField"@.len() != "PHPMD\\Rule\\Design\\LackOfCohesionOfMethods"@.len());
            assert("PHPMD\\Rule\\UnusedPrivateField"@ != "PHPMD\\Rule\\Design\\LackOfCohesionOfMethods"@);
            assert("PHPMD\\Rule\\UnusedLocalVariable"@.len() != "PHPMD\\Rule\\Design\\LackOfCohesionOfMethods"@.len());
            assert("PHPMD\\Rule\\UnusedLocalVariable"@ != "PHPMD\\Rule\\Design\\LackOfCohesionOfMethods"@);
            assert("PHPMD\\Rule\\UnusedPrivateMethod"@.len() != "PHPMD\\Rule\\Design\\LackOfCohesionOfMethods"@.len());
            assert("PHPMD\\Rule\\UnusedPrivateMethod"@ != "PHPMD\\Rule\\Design\\LackOfCohesionOfMethods"@);
            assert("PHPMD\\Rule\\UnusedFormalParameter"@.len() != "PHPMD\\Rule\\Design\\LackOfCohesionOfMethods"@.len());
            assert("PHPMD\\Rule\\UnusedFormalParameter"@ != "PHPMD\\Rule\\Design\\LackOfCohesionOfMethods"@);
            assert("PHPMD\\Rule\\CleanCode\\BooleanArgumentFlag"@.len() != "PHPMD\\Rule\\Design\\LackOfCohesionOfMethods"@.len());
            assert("PHPMD\\Rule\\CleanCode\\BooleanArgumentFlag"@ != "PHPMD\\Rule\\Design\\LackOfCohesionOfMethods"@);
            assert("PHPMD\\Rule\\CleanCode\\ElseExpression"@.len() != "PHPMD\\Rule\\Design\\LackOfCohesionOfMethods"@.len());
            assert("PHPMD\\Rule\\CleanCode\\ElseExpression"@ != "PHPMD\\Rule\\Design\\LackOfCohesionOfMethods"@);
            assert("PHPMD\\Rule\\CleanCode\\IfStatementAssignment"@.len() != "PHPMD\\Rule\\Design\\LackOfCohesionOfMethods"@.len());
            assert("PHPMD\\Rule\\CleanCode\\IfStatementAssignment"@ != "PHPMD\\Rule\\Design\\LackOfCohesionOfMethods"@);
            assert("PHPMD\\Rule\\CleanCode\\DuplicatedArrayKey"@.len() != "PHPMD\\Rule\\Design\\LackOfCohesionOfMethods"@.len());
            assert("PHPMD\\Rule\\CleanCode\\DuplicatedArrayKey"@ != "PHPMD\\Rule\\Design\\LackOfCohesionOfMethods"@);
            assert("PHPMD\\Rule\\CleanCode\\StaticAccess"@.len() != "PHPMD\\Rule\\Design\\LackOfCohesionOfMethods"@.len());
            assert("PHPMD\\Rule\\CleanCode\\StaticAccess"@ != "PHPMD\\Rule\\Design\\LackOfCohesionOfMethods"@);
            assert("PHPMD\\Rule\\Design\\ExitExpression"@.len() != "PHPMD\\Rule\\Design\\LackOfCohesionOfMethods"@.len());
            assert("PHPMD\\Rule\\Design\\ExitExpression"@ != "PHPMD\\Rule\\Design\\LackOfCohesionOfMethods"@);
            assert("PHPMD\\Rule\\Design\\GotoStatement"@.len() != "PHPMD\\Rule\\Design\\LackOfCohesionOfMethods"@.len());
            assert("PHPMD\\Rule\\Design\\GotoStatement"@ != "PHPMD\\Rule\\Design\\LackOfCohesionOfMethods"@);
            assert("PHPMD\\Rule\\Design\\CountInLoopExpression"@.len() != "PHPMD\\Rule\\Design\\LackOfCohesionOfMethods"@.len());
            assert("PHPMD\\Rule\\Design\\CountInLoopExpression"@ != "PHPMD\\Rule\\Design\\LackOfCohesionOfMethods"@);
            assert("PHPMD\\Rule\\Design\\DevelopmentCodeFragment"@[18] != "PHPMD\\Rule\\Design\\LackOfCohesionOfMethods"@[18]);
            assert("PHPMD\\Rule\\Design\\DevelopmentCodeFragment"@ != "PHPMD\\Rule\\Design\\LackOfCohesionOfMethods"@);
            assert("PHPMD\\Rule\\Design\\EmptyCatchBlock"@.len() != "PHPMD\\Rule\\Design\\LackOfCohesionOfMethods"@.len());
            assert("PHPMD\\Rule\\Design\\EmptyCatchBlock"@ != "PHPMD\\Rule\\Design\\LackOfCohesionOfMethods"@);
            assert("PHPMD\\Rule\\Design\\CouplingBetweenObjects"@.len() != "PHPMD\\Rule\\Design\\LackOfCohesionOfMethods"@.len());
            assert("PHPMD\\Rule\\Design\\CouplingBetweenObjects"@ != "PHPMD\\Rule\\Design\\LackOfCohesionOfMethods"@);
            assert("PHPMD\\Rule\\Design\\GlobalVariable"@.len() != "PHPMD\\Rule\\Design\\LackOfCohesionOfMethods"@.len());
            assert("PHPMD\\Rule\\Design\\GlobalVariable"@ != "PHPMD\\Rule\\Design\\LackOfCohesionOfMethods"@);
            assert(kind_of_class("PHPMD\\Rule\\Design\\LackOfCohesionOfMethods"@) == Some(RuleKind::LackOfCohesionOfMethods));
        },
        RuleKind::CamelCaseClassName => {
            reveal_strlit("PHPMD\\Rule\\CyclomaticComplexity");
            reveal_strlit("PHPMD\\Rule\\Design\\NpathComplexity");
            reveal_strlit("PHPMD\\Rule\\Design\\LongMethod");
            reveal_strlit("PHPMD\\Rule\\Design\\LongClass");
            reveal_strlit("PHPMD\\Rule\\Design\\LongParameterList");
            reveal_strlit("PHPMD\\Rule\\ExcessivePublicCount");
            reveal_strlit("PHPMD\\Rule\\Design\\TooManyFields");
            reveal_strlit("PHPMD\\Rule\\Design\\TooManyMethods");
            reveal_strlit("PHPMD\\Rule\\Design\\TooManyPublicMethods");
            reveal_strlit("PHPMD\\Rule\\Design\\WeightedMethodCount");
            reveal_strlit("PHPMD\\Rule\\Naming\\ShortClassName");
            reveal_strlit("PHPMD\\Rule\\Naming\\LongClassName");
            reveal_strlit("PHPMD\\Rule\\Naming\\ShortVariable");
            reveal_strlit("PHPMD\\Rule\\Naming\\LongVariable");
            reveal_strlit("PHPMD\\Rule\\Naming\\ShortMethodName");
            reveal_strlit("PHPMD\\Rule\\Naming\\ConstantNamingConventions");
            reveal_strlit("PHPMD\\Rule\\Naming\\BooleanGetMethodName");
            reveal_strlit("PHPMD\\Rule\\UnusedPrivateField");
            reveal_strlit("PHPMD\\Rule\\UnusedLocalVariable");
            reveal_strlit("PHPMD\\Rule\\UnusedPrivateMethod");
            reveal_strlit("PHPMD\\Rule\\UnusedFormalParameter");
            reveal_strlit("PHPMD\\Rule\\CleanCode\\BooleanArgumentFlag");
            reveal_strlit("PHPMD\\Rule\\CleanCode\\ElseExpression");
            reveal_strlit("PHPMD\\Rule\\CleanCode\\IfStatementAssignment");
            reveal_strlit("PHPMD\\Rule\\CleanCode\\DuplicatedArrayKey");
            reveal_strlit("PHPMD\\Rule\\CleanCode\\StaticAccess");
            reveal_strlit("PHPMD\\Rule\\Design\\ExitExpression");
            reveal_strlit("PHPMD\\Rule\\Design\\GotoStatement");
            reveal_strlit("PHPMD\\Rule\\Design\\CountInLoopExpression");
            reveal_strlit("PHPMD\\Rule\\Design\\DevelopmentCodeFragment");
            reveal_strlit("PHPMD\\Rule\\Design\\EmptyCatchBlock");
            reveal_strlit("PHPMD\\Rule\\Design\\CouplingBetweenObjects");
            reveal_strlit("PHPMD\\Rule\\Design\\GlobalVariable");
            reveal_strlit("PHPMD\\Rule\\Design\\LackOfCohesionOfMethods");
            reveal_strlit("PHPMD\\Rule\\Controversial\\CamelCaseClassName");
            assert("PHPMD\\Rule\\CyclomaticComplexity"@.len() != "PHPMD\\Rule\\Controversial\\CamelCaseClassName"@.len());
            assert("PHPMD\\Rule\\CyclomaticComplexity"@ != "PHPMD\\Rule\\Controversial\\CamelCaseClassName"@);
            assert("PHPMD\\Rule\\Design\\NpathComplexity"@.len() != "PHPMD\\Rule\\Controversial\\CamelCaseClassName"@.len());
            assert("PHPMD\\Rule\\Design\\NpathComplexity"@ != "PHPMD\\Rule\\Controversial\\CamelCaseClassName"@);
            assert("PHPMD\\Rule\\Design\\LongMethod"@.len() != "PHPMD\\Rule\\Controversial\\CamelCaseClassName"@.len());
            assert("PHPMD\\Rule\\Design\\LongMethod"@ != "PHPMD\\Rule\\Controversial\\CamelCaseClassName"@);
            assert("PHPMD\\Rule\\Design\\LongClass"@.len() != "PHPMD\\Rule\\Controversial\\CamelCaseClassName"@.len());
            assert("PHPMD\\Rule\\Design\\LongClass"@ != "PHPMD\\Rule\\Controversial\\CamelCaseClassName"@);
            assert("PHPMD\\Rule\\Design\\LongParameterList"@.len() != "PHPMD\\Rule\\Controversial\\CamelCaseClassName"@.len());
            assert("PHPMD\\Rule\\Design\\LongParameterList"@ != "PHPMD\\Rule\\Controversial\\CamelCaseClassName"@);
            assert("PHPMD\\Rule\\ExcessivePublicCount"@.len() != "PHPMD\\Rule\\Controversial\\CamelCaseClassName"@.len());
            assert("PHPMD\\Rule\\ExcessivePublicCount"@ != "PHPMD\\Rule\\Controversial\\CamelCaseClassName"@);
            assert("PHPMD\\Rule\\Design\\TooManyFields"@.len() != "PHPMD\\Rule\\Controversial\\CamelCaseClassName"@.len());
            assert("PHPMD\\Rule\\Design\\TooManyFields"@ != "PHPMD\\Rule\\Controversial\\CamelCaseClassName"@);
            assert("PHPMD\\Rule\\Design\\TooManyMethods"@.len() != "PHPMD\\Rule\\Controversial\\CamelCaseClassName"@.len());
            assert("PHPMD\\Rule\\Design\\TooManyMethods"@ != "PHPMD\\Rule\\Controversial\\CamelCaseClassName"@);
            assert("PHPMD\\Rule\\Design\\TooManyPublicMethods"@.len() != "PHPMD\\Rule\\Controversial\\CamelCaseClassName"@.len());
            assert("PHPMD\\Rule\\Design\\TooManyPublicMethods"@ != "PHPMD\\Rule\\Controversial\\CamelCaseClassName"@);
            assert("PHPMD\\Rule\\Design\\WeightedMethodCount"@.len() != "PHPMD\\Rule\\Controversial\\CamelCaseClassName"@.len());
            assert("PHPMD\\Rule\\Design\\WeightedMethodCount"@ != "PHPMD\\Rule\\Controversial\\CamelCaseClassName"@);
            assert("PHPMD\\Rule\\Naming\\ShortClassName"@.len() != "PHPMD\\Rule\\Controversial\\CamelCaseClassName"@.len());
            assert("PHPMD\\Rule\\Naming\\ShortClassName"@ != "PHPMD\\Rule\\Controversial\\CamelCaseClassName"@);
            assert("PHPMD\\Rule\\Naming\\LongClassName"@.len() != "PHPMD\\Rule\\Controversial\\CamelCaseClassName"@.len());
            assert("PHPMD\\Rule\\Naming\\LongClassName"@ != "PHPMD\\Rule\\Controversial\\CamelCaseClassName"@);
            assert("PHPMD\\Rule\\Naming\\ShortVariable"@.len() != "PHPMD\\Rule\\Controversial\\CamelCaseClassName"@.len());
            assert("PHPMD\\Rule\\Naming\\ShortVariable"@ != "PHPMD\\Rule\\Controversial\\CamelCaseClassName"@);
            assert("PHPMD\\Rule\\Naming\\LongVariable"@.len() != "PHPMD\\Rule\\Controversial\\CamelCaseClassName"@.len());
            assert("PHPMD\\Rule\\Naming\\LongVariable"@ != "PHPMD\\Rule\\Controversial\\CamelCaseClassName"@);
            assert("PHPMD\\Rule\\Naming\\ShortMethodName"@.len() != "PHPMD\\Rule\\Controversial\\CamelCaseClassName"@.len());
            assert("PHPMD\\Rule\\Naming\\ShortMethodName"@ != "PHPMD\\Rule\\Controversial\\CamelCaseClassName"@);
            assert("PHPMD\\Rule\\Naming\\ConstantNamingConventions"@[11] != "PHPMD\\Rule\\Controversial\\CamelCaseClassName"@[11]);
            assert("PHPMD\\Rule\\Naming\\ConstantNamingConventions"@ != "PHPMD\\Rule\\Controversial\\CamelCaseClassName"@);
            assert("PHPMD\\Rule\\Naming\\BooleanGetMethodName"@.len() != "PHPMD\\Rule\\Controversial\\CamelCaseClassName"@.len());
            assert("PHPMD\\Rule\\Naming\\BooleanGetMethodName"@ != "PHPMD\\Rule\\Controversial\\CamelCaseClassName"@);
            assert("PHPMD\\Rule\\UnusedPrivateField"@.len() != "PHPMD\\Rule\\Controversial\\CamelCaseClassName"@.len());
            assert("PHPMD\\Rule\\UnusedPrivateField"@ != "PHPMD\\Rule\\Controversial\\CamelCaseClassName"@);
            assert("PHPMD\\Rule\\UnusedLocalVariable"@.len() != "PHPMD\\Rule\\Controversial\\CamelCaseClassName"@.len());
            assert("PHPMD\\Rule\\UnusedLocalVariable"@ != "PHPMD\\Rule\\Controversial\\CamelCaseClassName"@);
            assert("PHPMD\\Rule\\UnusedPrivateMethod"@.len() != "PHPMD\\Rule\\Controversial\\CamelCaseClassName"@.len());
            assert("PHPMD\\Rule\\UnusedPrivateMethod"@ != "PHPMD\\Rule\\Controversial\\CamelCaseClassName"@);
            assert("PHPMD\\Rule\\UnusedFormalParameter"@.len() != "PHPMD\\Rule\\Controversial\\CamelCaseClassName"@.len());
            assert("PHPMD\\Rule\\UnusedFormalParameter"@ != "PHPMD\\Rule\\Controversial\\CamelCaseClassName"@);
            assert("PHPMD\\Rule\\CleanCode\\BooleanArgumentFlag"@.len() != "PHPMD\\Rule\\Controversial\\CamelCaseClassName"@.len());
            assert("PHPMD\\Rule\\CleanCode\\BooleanArgumentFlag"@ != "PHPMD\\Rule\\Controversial\\CamelCaseClassName"@);
            assert("PHPMD\\Rule\\CleanCode\\ElseExpression"@.len() != "PHPMD\\Rule\\Controversial\\CamelCaseClassName"@.len());
            assert("PHPMD\\Rule\\CleanCode\\ElseExpression"@ != "PHPMD\\Rule\\Controversial\\CamelCaseClassName"@);
            assert("PHPMD\\Rule\\CleanCode\\IfStatementAssignment"@.len() != "PHPMD\\Rule\\Controversial\\CamelCaseClassName"@.len());
            assert("PHPMD\\Rule\\CleanCode\\IfStatementAssignment"@ != "PHPMD\\Rule\\Controversial\\CamelCaseClassName"@);
            assert("PHPMD\\Rule\\CleanCode\\DuplicatedArrayKey"@.len() != "PHPMD\\Rule\\Controversial\\CamelCaseClassName"@.len());
            assert("PHPMD\\Rule\\CleanCode\\DuplicatedArrayKey"@ != "PHPMD\\Rule\\Controversial\\CamelCaseClassName"@);
            assert("PHPMD\\Rule\\CleanCode\\StaticAccess"@.len() != "PHPMD\\Rule\\Controversial\\CamelCaseClassName"@.len());
            assert("PHPMD\\Rule\\CleanCode\\StaticAccess"@ != "PHPMD\\Rule\\Controversial\\CamelCaseClassName"@);
            assert("PHPMD\\Rule\\Design\\ExitExpression"@.len() != "PHPMD\\Rule\\Controversial\\CamelCaseClassName"@.len());
            assert("PHPMD\\Rule\\Design\\ExitExpression"@ != "PHPMD\\Rule\\Controversial\\CamelCaseClassName"@);
            assert("PHPMD\\Rule\\Design\\GotoStatement"@.len() != "PHPMD\\Rule\\Controversial\\CamelCaseClassName"@.len());
            assert("PHPMD\\Rule\\Design\\GotoStatement"@ != "PHPMD\\Rule\\Controversial\\CamelCaseClassName"@);
            assert("PHPMD\\Rule\\Design\\CountInLoopExpression"@.len() != "PHPMD\\Rule\\Controversial\\CamelCaseClassName"@.len());
            assert("PHPMD\\Rule\\Design\\CountInLoopExpression"@ != "PHPMD\\Rule\\Controversial\\CamelCaseClassName"@);
            assert("PHPMD\\Rule\\Design\\DevelopmentCodeFragment"@.len() != "PHPMD\\Rule\\Controversial\\CamelCaseClassName"@.len());
            assert("PHPMD\\Rule\\Design\\DevelopmentCodeFragment"@ != "PHPMD\\Rule\\Controversial\\CamelCaseClassName"@);
            assert("PHPMD\\Rule\\Design\\EmptyCatchBlock"@.len() != "PHPMD\\Rule\\Controversial\\CamelCaseClassName"@.len());
            assert("PHPMD\\Rule\\Design\\EmptyCatchBlock"@ != "PHPMD\\Rule\\Controversial\\CamelCaseClassName"@);
            assert("PHPMD\\Rule\\Design\\CouplingBetweenObjects"@.len() != "PHPMD\\Rule\\Controversial\\CamelCaseClassName"@.len());
            assert("PHPMD\\Rule\\Design\\CouplingBetweenObjects"@ != "PHPMD\\Rule\\Controversial\\CamelCaseClassName"@);
            assert("PHPMD\\Rule\\Design\\GlobalVariable"@.len() != "PHPMD\\Rule\\Controversial\\CamelCaseClassName"@.len());
            assert("PHPMD\\Rule\\Design\\GlobalVariable"@ != "PHPMD\\Rule\\Controversial\\CamelCaseClassName"@);
            assert("PHPMD\\Rule\\Design\\LackOfCohesionOfMethods"@.len() != "PHPMD\\Rule\\Controversial\\CamelCaseClassName"@.len());
            assert("PHPMD\\Rule\\Design\\LackOfCohesionOfMethods"@ != "PHPMD\\Rule\\Controversial\\CamelCaseClassName"@);
            assert(kind_of_class("PHPMD\\Rule\\Controversial\\CamelCaseClassName"@) == Some(RuleKind::CamelCaseClassName));
        },
        RuleKind::CamelCaseMethodName => {
            reveal_strlit("PHPMD\\Rule\\CyclomaticComplexity");
            reveal_strlit("PHPMD\\Rule\\Design\\NpathComplexity");
            reveal_strlit("PHPMD\\Rule\\Design\\LongMethod");
            reveal_strlit("PHPMD\\Rule\\Design\\LongClass");
            reveal_strlit("PHPMD\\Rule\\Design\\LongParameterList");
            reveal_strlit("PHPMD\\Rule\\ExcessivePublicCount");
            reveal_strlit("PHPMD\\Rule\\Design\\TooManyFields");
            reveal_strlit("PHPMD\\Rule\\Design\\TooManyMethods");
            reveal_strlit("PHPMD\\Rule\\Design\\TooManyPublicMethods");
            reveal_strlit("PHPMD\\Rule\\Design\\WeightedMethodCount");
            reveal_strlit("PHPMD\\Rule\\Naming\\ShortClassName");
            reveal_strlit("PHPMD\\Rule\\Naming\\LongClassName");
            reveal_strlit("PHPMD\\Rule\\Naming\\ShortVariable");
            reveal_strlit("PHPMD\\Rule\\Naming\\LongVariable");
            reveal_strlit("PHPMD\\Rule\\Naming\\ShortMethodName");
            reveal_strlit("PHPMD\\Rule\\Naming\\ConstantNamingConventions");
            reveal_strlit("PHPMD\\Rule\\Naming\\BooleanGetMethodName");
            reveal_strlit("PHPMD\\Rule\\UnusedPrivateField");
            reveal_strlit("PHPMD\\Rule\\UnusedLocalVariable");
            reveal_strlit("PHPMD\\Rule\\UnusedPrivateMethod");
            reveal_strlit("PHPMD\\Rule\\UnusedFormalParameter");
            reveal_strlit("PHPMD\\Rule\\CleanCode\\BooleanArgumentFlag");
            reveal_strlit("PHPMD\\Rule\\CleanCode\\ElseExpression");
            reveal_strlit("PHPMD\\Rule\\CleanCode\\IfStatementAssignment");
            reveal_strlit("PHPMD\\Rule\\CleanCode\\DuplicatedArrayKey");
            reveal_strlit("PHPMD\\Rule\\CleanCode\\StaticAccess");
            reveal_strlit("PHPMD\\Rule\\Design\\ExitExpression");
            reveal_strlit("PHPMD\\Rule\\Design\\GotoStatement");
            reveal_strlit("PHPMD\\Rule\\Design\\CountInLoopExpression");
            reveal_strlit("PHPMD\\Rule\\Design\\DevelopmentCodeFragment");
            reveal_strlit("PHPMD\\Rule\\Design\\EmptyCatchBlock");
            reveal_strlit("PHPMD\\Rule\\Design\\CouplingBetweenObjects");
            reveal_strlit("PHPMD\\Rule\\Design\\GlobalVariable");
            reveal_strlit("PHPMD\\Rule\\Design\\LackOfCohesionOfMethods");
            reveal_strlit("PHPMD\\Rule\\Controversial\\CamelCaseClassName");
            reveal_strlit("PHPMD\\Rule\\Controversial\\CamelCaseMethodName");
            assert("PHPMD\\Rule\\CyclomaticComplexity"@.len() != "PHPMD\\Rule\\Controversial\\CamelCaseMethodName"@.len());
            assert("PHPMD\\Rule\\CyclomaticComplexity"@ != "PHPMD\\Rule\\Controversial\\CamelCaseMethodName"@);
            assert("PHPMD\\Rule\\Design\\NpathComplexity"@.len() != "PHPMD\\Rule\\Controversial\\CamelCaseMethodName"@.len());
            assert("PHPMD\\Rule\\Design\\NpathComplexity"@ != "PHPMD\\Rule\\Controversial\\CamelCaseMethodName"@);
            assert("PHPMD\\Rule\\Design\\LongMethod"@.len() != "PHPMD\\Rule\\Controversial\\CamelCaseMethodName"@.len());
            assert("PHPMD\\Rule\\Design\\LongMethod"@ != "PHPMD\\Rule\\Controversial\\CamelCaseMethodName"@);
            assert("PHPMD\\Rule\\Design\\LongClass"@.len() != "PHPMD\\Rule\\Controversial\\CamelCaseMethodName"@.len());
            assert("PHPMD\\Rule\\Design\\LongClass"@ != "PHPMD\\Rule\\Controversial\\CamelCaseMethodName"@);
            assert("PHPMD\\Rule\\Design\\LongParameterList"@.len() != "PHPMD\\Rule\\Controversial\\CamelCaseMethodName"@.len());
            assert("PHPMD\\Rule\\Design\\LongParameterList"@ != "PHPMD\\Rule\\Controversial\\CamelCaseMethodName"@);
            assert("PHPMD\\Rule\\ExcessivePublicCount"@.len() != "PHPMD\\Rule\\Controversial\\CamelCaseMethodName"@.len());
            assert("PHPMD\\Rule\\ExcessivePublicCount"@ != "PHPMD\\Rule\\Controversial\\CamelCaseMethodName"@);
            assert("PHPMD\\Rule\\Design\\TooManyFields"@.len() != "PHPMD\\Rule\\Controversial\\CamelCaseMethodName"@.len());
            assert("PHPMD\\Rule\\Design\\TooManyFields"@ != "PHPMD\\Rule\\Controversial\\CamelCaseMethodName"@);
            assert("PHPMD\\Rule\\Design\\TooManyMethods"@.len() != "PHPMD\\Rule\\Controversial\\CamelCaseMethodName"@.len());
            assert("PHPMD\\Rule\\Design\\TooManyMethods"@ != "PHPMD\\Rule\\Controversial\\CamelCaseMethodName"@);
            assert("PHPMD\\Rule\\Design\\TooManyPublicMethods"@.len() != "PHPMD\\Rule\\Controversial\\CamelCaseMethodName"@.len());
            assert("PHPMD\\Rule\\Design\\TooManyPublicMethods"@ != "PHPMD\\Rule\\Controversial\\CamelCaseMethodName"@);
            assert("PHPMD\\Rule\\Design\\WeightedMethodCount"@.len() != "PHPMD\\Rule\\Controversial\\CamelCaseMethodName"@.len());
            assert("PHPMD\\Rule\\Design\\WeightedMethodCount"@ != "PHPMD\\Rule\\Controversial\\CamelCaseMethodName"@);
            assert("PHPMD\\Rule\\Naming\\ShortClassName"@.len() != "PHPMD\\Rule\\Controversial\\CamelCaseMethodName"@.len());
            assert("PHPMD\\Rule\\Naming\\ShortClassName"@ != "PHPMD\\Rule\\Controversial\\CamelCaseMethodName"@);
            assert("PHPMD\\Rule\\Naming\\LongClassName"@.len() != "PHPMD\\Rule\\Controversial\\CamelCaseMethodName"@.len());
            assert("PHPMD\\Rule\\Naming\\LongClassName"@ != "PHPMD\\Rule\\Controversial\\CamelCaseMethodName"@);
            assert("PHPMD\\Rule\\Naming\\ShortVariable"@.len() != "PHPMD\\Rule\\Controversial\\CamelCaseMethodName"@.len());
            assert("PHPMD\\Rule\\Naming\\ShortVariable"@ != "PHPMD\\Rule\\Controversial\\CamelCaseMethodName"@);
            assert("PHPMD\\Rule\\Naming\\LongVariable"@.len() != "PHPMD\\Rule\\Controversial\\CamelCaseMethodName"@.len());
            assert("PHPMD\\Rule\\Naming\\LongVariable"@ != "PHPMD\\Rule\\Controversial\\CamelCaseMethodName"@);
            assert("PHPMD\\Rule\\Naming\\ShortMethodName"@.len() != "PHPMD\\Rule\\Controversial\\CamelCaseMethodName"@.len());
            assert("PHPMD\\Rule\\Naming\\ShortMethodName"@ != "PHPMD\\Rule\\Controversial\\CamelCaseMethodName"@);
            assert("PHPMD\\Rule\\Naming\\ConstantNamingConventions"@.len() != "PHPMD\\Rule\\Controversial\\CamelCaseMethodName"@.len());
            assert("PHPMD\\Rule\\Naming\\ConstantNamingConventions"@ != "PHPMD\\Rule\\Controversial\\CamelCaseMethodName"@);
            assert("PHPMD\\Rule\\Naming\\BooleanGetMethodName"@.len() != "PHPMD\\Rule\\Controversial\\CamelCaseMethodName"@.len());
            assert("PHPMD\\Rule\\Naming\\BooleanGetMethodName"@ != "PHPMD\\Rule\\Controversial\\CamelCaseMethodName"@);
            assert("PHPMD\\Rule\\UnusedPrivateField"@.len() != "PHPMD\\Rule\\Controversial\\CamelCaseMethodName"@.len());
            assert("PHPMD\\Rule\\UnusedPrivateField"@ != "PHPMD\\Rule\\Controversial\\CamelCaseMethodName"@);
            assert("PHPMD\\Rule\\UnusedLocalVariable"@.len() != "PHPMD\\Rule\\Controversial\\CamelCaseMethodName"@.len());
            assert("PHPMD\\Rule\\UnusedLocalVariable"@ != "PHPMD\\Rule\\Controversial\\CamelCaseMethodName"@);
            assert("PHPMD\\Rule\\UnusedPrivateMethod"@.len() != "PHPMD\\Rule\\Controversial\\CamelCaseMethodName"@.len());
            assert("PHPMD\\Rule\\UnusedPrivateMethod"@ != "PHPMD\\Rule\\Controversial\\CamelCaseMethodName"@);
            assert("PHPMD\\Rule\\UnusedFormalParameter"@.len() != "PHPMD\\Rule\\Controversial\\CamelCaseMethodName"@.len());
            assert("PHPMD\\Rule\\UnusedFormalParameter"@ != "PHPMD\\Rule\\Controversial\\CamelCaseMethodName"@);
            assert("PHPMD\\Rule\\CleanCode\\BooleanArgumentFlag"@.len() != "PHPMD\\Rule\\Controversial\\CamelCaseMethodName"@.len());
            assert("PHPMD\\Rule\\CleanCode\\BooleanArgumentFlag"@ != "PHPMD\\Rule\\Controversial\\CamelCaseMethodName"@);
            assert("PHPMD\\Rule\\CleanCode\\ElseExpression"@.len() != "PHPMD\\Rule\\Controversial\\CamelCaseMethodName"@.len());
            assert("PHPMD\\Rule\\CleanCode\\ElseExpression"@ != "PHPMD\\Rule\\Controversial\\CamelCaseMethodName"@);
            assert("PHPMD\\Rule\\CleanCode\\IfStatementAssignment"@.len() != "PHPMD\\Rule\\Controversial\\CamelCaseMethodName"@.len());
            assert("PHPMD\\Rule\\CleanCode\\IfStatementAssignment"@ != "PHPMD\\Rule\\Controversial\\CamelCaseMethodName"@);
            assert("PHPMD\\Rule\\CleanCode\\DuplicatedArrayKey"@.len() != "PHPMD\\Rule\\Controversial\\CamelCaseMethodName"@.len());
            assert("PHPMD\\Rule\\CleanCode\\DuplicatedArrayKey"@ != "PHPMD\\Rule\\Controversial\\CamelCaseMethodName"@);
            assert("PHPMD\\Rule\\CleanCode\\StaticAccess"@.len() != "PHPMD\\Rule\\Controversial\\CamelCaseMethodName"@.len());
            assert("PHPMD\\Rule\\CleanCode\\StaticAccess"@ != "PHPMD\\Rule\\Controversial\\CamelCaseMethodName"@);
            assert("PHPMD\\Rule\\Design\\ExitExpression"@.len() != "PHPMD\\Rule\\Controversial\\CamelCaseMethodName"@.len());
            assert("PHPMD\\Rule\\Design\\ExitExpression"@ != "PHPMD\\Rule\\Controversial\\CamelCaseMethodName"@);
            assert("PHPMD\\Rule\\Design\\GotoStatement"@.len() != "PHPMD\\Rule\\Controversial\\CamelCaseMethodName"@.len());
            assert("PHPMD\\Rule\\Design\\GotoStatement"@ != "PHPMD\\Rule\\Controversial\\CamelCaseMethodName"@);
            assert("PHPMD\\Rule\\Design\\CountInLoopExpression"@.len() != "PHPMD\\Rule\\Controversial\\CamelCaseMethodName"@.len());
            assert("PHPMD\\Rule\\Design\\CountInLoopExpression"@ != "PHPMD\\Rule\\Controversial\\CamelCaseMethodName"@);
            assert("PHPMD\\Rule\\Design\\DevelopmentCodeFragment"@.len() != "PHPMD\\Rule\\Controversial\\CamelCaseMethodName"@.len());
            assert("PHPMD\\Rule\\Design\\DevelopmentCodeFragment"@ != "PHPMD\\Rule\\Controversial\\CamelCaseMethodName"@);
            assert("PHPMD\\Rule\\Design\\EmptyCatchBlock"@.len() != "PHPMD\\Rule\\Controversial\\CamelCaseMethodName"@.len());
            assert("PHPMD\\Rule\\Design\\EmptyCatchBlock"@ != "PHPMD\\Rule\\Controversial\\CamelCaseMethodName"@);
            assert("PHPMD\\Rule\\Design\\CouplingBetweenObjects"@.len() != "PHPMD\\Rule\\Controversial\\CamelCaseMethodName"@.len());
            assert("PHPMD\\Rule\\Design\\CouplingBetweenObjects"@ != "PHPMD\\Rule\\Controversial\\CamelCaseMethodName"@);
            assert("PHPMD\\Rule\\Design\\GlobalVariable"@.len() != "PHPMD\\Rule\\Controversial\\CamelCaseMethodName"@.len());
            assert("PHPMD\\Rule\\Design\\GlobalVariable"@ != "PHPMD\\Rule\\Controversial\\CamelCaseMethodName"@);
            assert("PHPMD\\Rule\\Design\\LackOfCohesionOfMethods"@.len() != "PHPMD\\Rule\\Controversial\\CamelCaseMethodName"@.len());
            assert("PHPMD\\Rule\\Design\\LackOfCohesionOfMethods"@ != "PHPMD\\Rule\\Controversial\\CamelCaseMethodName"@);
            assert("PHPMD\\Rule\\Controversial\\CamelCaseClassName"@.len() != "PHPMD\\Rule\\Controversial\\CamelCaseMethodName"@.len());
            assert("PHPMD\\Rule\\Controversial\\CamelCaseClassName"@ != "PHPMD\\Rule\\Controversial\\CamelCaseMethodName"@);
            assert(kind_of_class("PHPMD\\Rule\\Controversial\\CamelCaseMethodName"@) == Some(RuleKind::CamelCaseMethodName));
        },
        RuleKind::CamelCasePropertyName => {
            reveal_strlit("PHPMD\\Rule\\CyclomaticComplexity");
            reveal_strlit("PHPMD\\Rule\\Design\\NpathComplexity");
            reveal_strlit("PHPMD\\Rule\\Design\\LongMethod");
            reveal_strlit("PHPMD\\Rule\\Design\\LongClass");
            reveal_strlit("PHPMD\\Rule\\Design\\LongParameterList");
            reveal_strlit("PHPMD\\Rule\\ExcessivePublicCount");
            reveal_strlit("PHPMD\\Rule\\Design\\TooManyFields");
            reveal_strlit("PHPMD\\Rule\\Design\\TooManyMethods");
            reveal_strlit("PHPMD\\Rule\\Design\\TooManyPublicMethods");
            reveal_strlit("PHPMD\\Rule\\Design\\WeightedMethodCount");
            reveal_strlit("PHPMD\\Rule\\Naming\\ShortClassName");
            reveal_strlit("PHPMD\\Rule\\Naming\\LongClassName");
            reveal_strlit("PHPMD\\Rule\\Naming\\ShortVariable");
            reveal_strlit("PHPMD\\Rule\\Naming\\LongVariable");
            reveal_strlit("PHPMD\\Rule\\Naming\\ShortMethodName");
            reveal_strlit("PHPMD\\Rule\\Naming\\ConstantNamingConventions");
            reveal_strlit("PHPMD\\Rule\\Naming\\BooleanGetMethodName");
            reveal_strlit("PHPMD\\Rule\\UnusedPrivateField");
            reveal_strlit("PHPMD\\Rule\\UnusedLocalVariable");
            reveal_strlit("PHPMD\\Rule\\UnusedPrivateMethod");
            reveal_strlit("PHPMD\\Rule\\UnusedFormalParameter");
            reveal_strlit("PHPMD\\Rule\\CleanCode\\BooleanArgumentFlag");
            reveal_strlit("PHPMD\\Rule\\CleanCode\\ElseExpression");
            reveal_strlit("PHPMD\\Rule\\CleanCode\\IfStatementAssignment");
            reveal_strlit("PHPMD\\Rule\\CleanCode\\DuplicatedArrayKey");
            reveal_strlit("PHPMD\\Rule\\CleanCode\\StaticAccess");
            reveal_strlit("PHPMD\\Rule\\Design\\ExitExpression");
            reveal_strlit("PHPMD\\Rule\\Design\\GotoStatement");
            reveal_strlit("PHPMD\\Rule\\Design\\CountInLoopExpression");
            reveal_strlit("PHPMD\\Rule\\Design\\DevelopmentCodeFragment");
            reveal_strlit("PHPMD\\Rule\\Design\\EmptyCatchBlock");
            reveal_strlit("PHPMD\\Rule\\Design\\CouplingBetweenObjects");
            reveal_strlit("PHPMD\\Rule\\Design\\GlobalVariable");
            reveal_strlit("PHPMD\\Rule\\Design\\LackOfCohesionOfMethods");
            reveal_strlit("PHPMD\\Rule\\Controversial\\CamelCaseClassName");
            reveal_strlit("PHPMD\\Rule\\Controversial\\CamelCaseMethodName");
            reveal_strlit("PHPMD\\Rule\\Controversial\\CamelCasePropertyName");
            assert("PHPMD\\Rule\\CyclomaticComplexity"@.len() != "PHPMD\\Rule\\Controversial\\CamelCasePropertyName"@.len());
            assert("PHPMD\\Rule\\CyclomaticComplexity"@ != "PHPMD\\Rule\\Controversial\\CamelCasePropertyName"@);
            assert("PHPMD\\Rule\\Design\\NpathComplexity"@.len() != "PHPMD\\Rule\\Controversial\\CamelCasePropertyName"@.len());
            assert("PHPMD\\Rule\\Design\\NpathComplexity"@ != "PHPMD\\Rule\\Controversial\\CamelCasePropertyName"@);
            assert("PHPMD\\Rule\\Design\\LongMethod"@.len() != "PHPMD\\Rule\\Controversial\\CamelCasePropertyName"@.len());
            assert("PHPMD\\Rule\\Design\\LongMethod"@ != "PHPMD\\Rule\\Controversial\\CamelCasePropertyName"@);
            assert("PHPMD\\Rule\\Design\\LongClass"@.len() != "PHPMD\\Rule\\Controversial\\CamelCasePropertyName"@.len());
            assert("PHPMD\\Rule\\Design\\LongClass"@ != "PHPMD\\Rule\\Controversial\\CamelCasePropertyName"@);
            assert("PHPMD\\Rule\\Design\\LongParameterList"@.len() != "PHPMD\\Rule\\Controversial\\CamelCasePropertyName"@.len());
            assert("PHPMD\\Rule\\Design\\LongParameterList"@ != "PHPMD\\Rule\\Controversial\\CamelCasePropertyName"@);
            assert("PHPMD\\Rule\\ExcessivePublicCount"@.len() != "PHPMD\\Rule\\Controversial\\CamelCasePropertyName"@.len());
            assert("PHPMD\\Rule\\ExcessivePublicCount"@ != "PHPMD\\Rule\\Controversial\\CamelCasePropertyName"@);
            assert("PHPMD\\Rule\\Design\\TooManyFields"@.len() != "PHPMD\\Rule\\Controversial\\CamelCasePropertyName"@.len());
            assert("PHPMD\\Rule\\Design\\TooManyFields"@ != "PHPMD\\Rule\\Controversial\\CamelCasePropertyName"@);
            assert("PHPMD\\Rule\\Design\\TooManyMethods"@.len() != "PHPMD\\Rule\\Controversial\\CamelCasePropertyName"@.len());
            assert("PHPMD\\Rule\\Design\\TooManyMethods"@ != "PHPMD\\Rule\\Controversial\\CamelCasePropertyName"@);
            assert("PHPMD\\Rule\\Design\\TooManyPublicMethods"@.len() != "PHPMD\\Rule\\Controversial\\CamelCasePropertyName"@.len());
            assert("PHPMD\\Rule\\Design\\TooManyPublicMethods"@ != "PHPMD\\Rule\\Controversial\\CamelCasePropertyName"@);
            assert("PHPMD\\Rule\\Design\\WeightedMethodCount"@.len() != "PHPMD\\Rule\\Controversial\\CamelCasePropertyName"@.len());
            assert("PHPMD\\Rule\\Design\\WeightedMethodCount"@ != "PHPMD\\Rule\\Controversial\\CamelCasePropertyName"@);
            assert("PHPMD\\Rule\\Naming\\ShortClassName"@.len() != "PHPMD\\Rule\\Controversial\\CamelCasePropertyName"@.len());
            assert("PHPMD\\Rule\\Naming\\ShortClassName"@ != "PHPMD\\Rule\\Controversial\\CamelCasePropertyName"@);
            assert("PHPMD\\Rule\\Naming\\LongClassName"@.len() != "PHPMD\\Rule\\Controversial\\CamelCasePropertyName"@.len());
            assert("PHPMD\\Rule\\Naming\\LongClassName"@ != "PHPMD\\Rule\\Controversial\\CamelCasePropertyName"@);
            assert("PHPMD\\Rule\\Naming\\ShortVariable"@.len() != "PHPMD\\Rule\\Controversial\\CamelCasePropertyName"@.len());
            assert("PHPMD\\Rule\\Naming\\ShortVariable"@ != "PHPMD\\Rule\\Controversial\\CamelCasePropertyName"@);
            assert("PHPMD\\Rule\\Naming\\LongVariable"@.len() != "PHPMD\\Rule\\Controversial\\CamelCasePropertyName"@.len());
            assert("PHPMD\\Rule\\Naming\\LongVariable"@ != "PHPMD\\Rule\\Controversial\\CamelCasePropertyName"@);
            assert("PHPMD\\Rule\\Naming\\ShortMethodName"@.len() != "PHPMD\\Rule\\Controversial\\CamelCasePropertyName"@.len());
            assert("PHPMD\\Rule\\Naming\\ShortMethodName"@ != "PHPMD\\Rule\\Controversial\\CamelCasePropertyName"@);
            assert("PHPMD\\Rule\\Naming\\ConstantNamingConventions"@.len() != "PHPMD\\Rule\\Controversial\\CamelCasePropertyName"@.len());
            assert("PHPMD\\Rule\\Naming\\ConstantNamingConventions"@ != "PHPMD\\Rule\\Controversial\\CamelCasePropertyName"@);
            assert("PHPMD\\Rule\\Naming\\BooleanGetMethodName"@.len() != "PHPMD\\Rule\\Controversial\\CamelCasePropertyName"@.len());
            assert("PHPMD\\Rule\\Naming\\BooleanGetMethodName"@ != "PHPMD\\Rule\\Controversial\\CamelCasePropertyName"@);
            assert("PHPMD\\Rule\\UnusedPrivateField"@.len() != "PHPMD\\Rule\\Controversial\\CamelCasePropertyName"@.len());
            assert("PHPMD\\Rule\\UnusedPrivateField"@ != "PHPMD\\Rule\\Controversial\\CamelCasePropertyName"@);
            assert("PHPMD\\Rule\\UnusedLocalVariable"@.len() != "PHPMD\\Rule\\Controversial\\CamelCasePropertyName"@.len());
            assert("PHPMD\\Rule\\UnusedLocalVariable"@ != "PHPMD\\Rule\\Controversial\\CamelCasePropertyName"@);
            assert("PHPMD\\Rule\\UnusedPrivateMethod"@.len() != "PHPMD\\Rule\\Controversial\\CamelCasePropertyName"@.len());
            assert("PHPMD\\Rule\\UnusedPrivateMethod"@ != "PHPMD\\Rule\\Controversial\\CamelCasePropertyName"@);
            assert("PHPMD\\Rule\\UnusedFormalParameter"@.len() != "PHPMD\\Rule\\Controversial\\CamelCasePropertyName"@.len());
            assert("PHPMD\\Rule\\UnusedFormalParameter"@ != "PHPMD\\Rule\\Controversial\\CamelCasePropertyName"@);
            assert("PHPMD\\Rule\\CleanCode\\BooleanArgumentFlag"@.len() != "PHPMD\\Rule\\Controversial\\CamelCasePropertyName"@.len());
            assert("PHPMD\\Rule\\CleanCode\\BooleanArgumentFlag"@ != "PHPMD\\Rule\\Controversial\\CamelCasePropertyName"@);
            assert("PHPMD\\Rule\\CleanCode\\ElseExpression"@.len() != "PHPMD\\Rule\\Controversial\\CamelCasePropertyName"@.len());
            assert("PHPMD\\Rule\\CleanCode\\ElseExpression"@ != "PHPMD\\Rule\\Controversial\\CamelCasePropertyName"@);
            assert("PHPMD\\Rule\\CleanCode\\IfStatementAssignment"@.len() != "PHPMD\\Rule\\Controversial\\CamelCasePropertyName"@.len());
            assert("PHPMD\\Rule\\CleanCode\\IfStatementAssignment"@ != "PHPMD\\Rule\\Controversial\\CamelCasePropertyName"@);
            assert("PHPMD\\Rule\\CleanCode\\DuplicatedArrayKey"@.len() != "PHPMD\\Rule\\Controversial\\CamelCasePropertyName"@.len());
            assert("PHPMD\\Rule\\CleanCode\\DuplicatedArrayKey"@ != "PHPMD\\Rule\\Controversial\\CamelCasePropertyName"@);
            assert("PHPMD\\Rule\\CleanCode\\StaticAccess"@.len() != "PHPMD\\Rule\\Controversial\\CamelCasePropertyName"@.len());
            assert("PHPMD\\Rule\\CleanCode\\StaticAccess"@ != "PHPMD\\Rule\\Controversial\\CamelCasePropertyName"@);
            assert("PHPMD\\Rule\\Design\\ExitExpression"@.len() != "PHPMD\\Rule\\Controversial\\CamelCasePropertyName"@.len());
            assert("PHPMD\\Rule\\Design\\ExitExpression"@ != "PHPMD\\Rule\\Controversial\\CamelCasePropertyName"@);
            assert("PHPMD\\Rule\\Design\\GotoStatement"@.len() != "PHPMD\\Rule\\Controversial\\CamelCasePropertyName"@.len());
            assert("PHPMD\\Rule\\Design\\GotoStatement"@ != "PHPMD\\Rule\\Controversial\\CamelCasePropertyName"@);
            assert("PHPMD\\Rule\\Design\\CountInLoopExpression"@.len() != "PHPMD\\Rule\\Controversial\\CamelCasePropertyName"@.len());
            assert("PHPMD\\Rule\\Design\\CountInLoopExpression"@ != "PHPMD\\Rule\\Controversial\\CamelCasePropertyName"@);
            assert("PHPMD\\Rule\\Design\\DevelopmentCodeFragment"@.len() != "PHPMD\\Rule\\Controversial\\CamelCasePropertyName"@.len());
            assert("PHPMD\\Rule\\Design\\DevelopmentCodeFragment"@ != "PHPMD\\Rule\\Controversial\\CamelCasePropertyName"@);
            assert("PHPMD\\Rule\\Design\\EmptyCatchBlock"@.len() != "PHPMD\\Rule\\Controversial\\CamelCasePropertyName"@.len());
            assert("PHPMD\\Rule\\Design\\EmptyCatchBlock"@ != "PHPMD\\Rule\\Controversial\\CamelCasePropertyName"@);
            assert("PHPMD\\Rule\\Design\\CouplingBetweenObjects"@.len() != "PHPMD\\Rule\\Controversial\\CamelCasePropertyName"@.len());
            assert("PHPMD\\Rule\\Design\\CouplingBetweenObjects"@ != "PHPMD\\Rule\\Controversial\\CamelCasePropertyName"@);
            assert("PHPMD\\Rule\\Design\\GlobalVariable"@.len() != "PHPMD\\Rule\\Controversial\\CamelCasePropertyName"@.len());
            assert("PHPMD\\Rule\\Design\\GlobalVariable"@ != "PHPMD\\Rule\\Controversial\\CamelCasePropertyName"@);
            assert("PHPMD\\Rule\\Design\\LackOfCohesionOfMethods"@.len() != "PHPMD\\Rule\\Controversial\\CamelCasePropertyName"@.len());
            assert("PHPMD\\Rule\\Design\\LackOfCohesionOfMethods"@ != "PHPMD\\Rule\\Controversial\\CamelCasePropertyName"@);
            assert("PHPMD\\Rule\\Controversial\\CamelCaseClassName"@.len() != "PHPMD\\Rule\\Controversial\\CamelCasePropertyName"@.len());
            assert("PHPMD\\Rule\\Controversial\\CamelCaseClassName"@ != "PHPMD\\Rule\\Controversial\\CamelCasePropertyName"@);
            assert("PHPMD\\Rule\\Controversial\\CamelCaseMethodName"@.len() != "PHPMD\\Rule\\Controversial\\CamelCasePropertyName"@.len());
            assert("PHPMD\\Rule\\Controversial\\CamelCaseMethodName"@ != "PHPMD\\Rule\\Controversial\\CamelCasePropertyName"@);
            assert(kind_of_class("PHPMD\\Rule\\Controversial\\CamelCasePropertyName"@) == Some(RuleKind::CamelCasePropertyName));
        },
        RuleKind::CamelCaseParameterName => {
            reveal_strlit("PHPMD\\Rule\\CyclomaticComplexity");
            reveal_strlit("PHPMD\\Rule\\Design\\NpathComplexity");
            reveal_strlit("PHPMD\\Rule\\Design\\LongMethod");
            reveal_strlit("PHPMD\\Rule\\Design\\LongClass");
            reveal_strlit("PHPMD\\Rule\\Design\\LongParameterList");
            reveal_strlit("PHPMD\\Rule\\ExcessivePublicCount");
            reveal_strlit("PHPMD\\Rule\\Design\\TooManyFields");
            reveal_strlit("PHPMD\\Rule\\Design\\TooManyMethods");
            reveal_strlit("PHPMD\\Rule\\Design\\TooManyPublicMethods");
            reveal_strlit("PHPMD\\Rule\\Design\\WeightedMethodCount");
            reveal_strlit("PHPMD\\Rule\\Naming\\ShortClassName");
            reveal_strlit("PHPMD\\Rule\\Naming\\LongClassName");
            reveal_strlit("PHPMD\\Rule\\Naming\\ShortVariable");
            reveal_strlit("PHPMD\\Rule\\Naming\\LongVariable");
            reveal_strlit("PHPMD\\Rule\\Naming\\ShortMethodName");
            reveal_strlit("PHPMD\\Rule\\Naming\\ConstantNamingConventions");
            reveal_strlit("PHPMD\\Rule\\Naming\\BooleanGetMethodName");
            reveal_strlit("PHPMD\\Rule\\UnusedPrivateField");
            reveal_strlit("PHPMD\\Rule\\UnusedLocalVariable");
            reveal_strlit("PHPMD\\Rule\\UnusedPrivateMethod");
            reveal_strlit("PHPMD\\Rule\\UnusedFormalParameter");
            reveal_strlit("PHPMD\\Rule\\CleanCode\\BooleanArgumentFlag");
            reveal_strlit("PHPMD\\Rule\\CleanCode\\ElseExpression");
            reveal_strlit("PHPMD\\Rule\\CleanCode\\IfStatementAssignment");
            reveal_strlit("PHPMD\\Rule\\CleanCode\\DuplicatedArrayKey");
            reveal_strlit("PHPMD\\Rule\\CleanCode\\StaticAccess");
            reveal_strlit("PHPMD\\Rule\\Design\\ExitExpression");
            reveal_strlit("PHPMD\\Rule\\Design\\GotoStatement");
            reveal_strlit("PHPMD\\Rule\\Design\\CountInLoopExpression");
            reveal_strlit("PHPMD\\Rule\\Design\\DevelopmentCodeFragment");
            reveal_strlit("PHPMD\\Rule\\Design\\EmptyCatchBlock");
            reveal_strlit("PHPMD\\Rule\\Design\\CouplingBetweenObjects");
            reveal_strlit("PHPMD\\Rule\\Design\\GlobalVariable");
            reveal_strlit("PHPMD\\Rule\\Design\\LackOfCohesionOfMethods");
            reveal_strlit("PHPMD\\Rule\\Controversial\\CamelCaseClassName");
            reveal_strlit("PHPMD\\Rule\\Controversial\\CamelCaseMethodName");
            reveal_strlit("PHPMD\\Rule\\Controversial\\CamelCasePropertyName");
            reveal_strlit("PHPMD\\Rule\\Controversial\\CamelCaseParameterName");
            assert("PHPMD\\Rule\\CyclomaticComplexity"@.len() != "PHPMD\\Rule\\Controversial\\CamelCaseParameterName"@.len());
            assert("PHPMD\\Rule\\CyclomaticComplexity"@ != "PHPMD\\Rule\\Controversial\\CamelCaseParameterName"@);
            assert("PHPMD\\Rule\\Design\\NpathComplexity"@.len() != "PHPMD\\Rule\\Controversial\\CamelCaseParameterName"@.len());
            assert("PHPMD\\Rule\\Design\\NpathComplexity"@ != "PHPMD\\Rule\\Controversial\\CamelCaseParameterName"@);
            assert("PHPMD\\Rule\\Design\\LongMethod"@.len() != "PHPMD\\Rule\\Controversial\\CamelCaseParameterName"@.len());
            assert("PHPMD\\Rule\\Design\\LongMethod"@ != "PHPMD\\Rule\\Controversial\\CamelCaseParameterName"@);
            assert("PHPMD\\Rule\\Design\\LongClass"@.len() != "PHPMD\\Rule\\Controversial\\CamelCaseParameterName"@.len());
            assert("PHPMD\\Rule\\Design\\LongClass"@ != "PHPMD\\Rule\\Controversial\\CamelCaseParameterName"@);
            assert("PHPMD\\Rule\\Design\\LongParameterList"@.len() != "PHPMD\\Rule\\Controversial\\CamelCaseParameterName"@.len());
            assert("PHPMD\\Rule\\Design\\LongParameterList"@ != "PHPMD\\Rule\\Controversial\\CamelCaseParameterName"@);
            assert("PHPMD\\Rule\\ExcessivePublicCount"@.len() != "PHPMD\\Rule\\Controversial\\CamelCaseParameterName"@.len());
            assert("PHPMD\\Rule\\ExcessivePublicCount"@ != "PHPMD\\Rule\\Controversial\\CamelCaseParameterName"@);
            assert("PHPMD\\Rule\\Design\\TooManyFields"@.len() != "PHPMD\\Rule\\Controversial\\CamelCaseParameterName"@.len());
            assert("PHPMD\\Rule\\Design\\TooManyFields"@ != "PHPMD\\Rule\\Controversial\\CamelCaseParameterName"@);
            assert("PHPMD\\Rule\\Design\\TooManyMethods"@.len() != "PHPMD\\Rule\\Controversial\\CamelCaseParameterName"@.len());
            assert("PHPMD\\Rule\\Design\\TooManyMethods"@ != "PHPMD\\Rule\\Controversial\\CamelCaseParameterName"@);
            assert("PHPMD\\Rule\\Design\\TooManyPublicMethods"@.len() != "PHPMD\\Rule\\Controversial\\CamelCaseParameterName"@.len());
            assert("PHPMD\\Rule\\Design\\TooManyPublicMethods"@ != "PHPMD\\Rule\\Controversial\\CamelCaseParameterName"@);
            assert("PHPMD\\Rule\\Design\\WeightedMethodCount"@.len() != "PHPMD\\Rule\\Controversial\\CamelCaseParameterName"@.len());
            assert("PHPMD\\Rule\\Design\\WeightedMethodCount"@ != "PHPMD\\Rule\\Controversial\\CamelCaseParameterName"@);
            assert("PHPMD\\Rule\\Naming\\ShortClassName"@.len() != "PHPMD\\Rule\\Controversial\\CamelCaseParameterName"@.len());
            assert("PHPMD\\Rule\\Naming\\ShortClassName"@ != "PHPMD\\Rule\\Controversial\\CamelCaseParameterName"@);
            assert("PHPMD\\Rule\\Naming\\LongClassName"@.len() != "PHPMD\\Rule\\Controversial\\CamelCaseParameterName"@.len());
            assert("PHPMD\\Rule\\Naming\\LongClassName"@ != "PHPMD\\Rule\\Controversial\\CamelCaseParameterName"@);
            assert("PHPMD\\Rule\\Naming\\ShortVariable"@.len() != "PHPMD\\Rule\\Controversial\\CamelCaseParameterName"@.len());
            assert("PHPMD\\Rule\\Naming\\ShortVariable"@ != "PHPMD\\Rule\\Controversial\\CamelCaseParameterName"@);
            assert("PHPMD\\Rule\\Naming\\LongVariable"@.len() != "PHPMD\\Rule\\Controversial\\CamelCaseParameterName"@.len());
            assert("PHPMD\\Rule\\Naming\\LongVariable"@ != "PHPMD\\Rule\\Controversial\\CamelCaseParameterName"@);
            assert("PHPMD\\Rule\\Naming\\ShortMethodName"@.len() != "PHPMD\\Rule\\Controversial\\CamelCaseParameterName"@.len());
            assert("PHPMD\\Rule\\Naming\\ShortMethodName"@ != "PHPMD\\Rule\\Controversial\\CamelCaseParameterName"@);
            assert("PHPMD\\Rule\\Naming\\ConstantNamingConventions"@.len() != "PHPMD\\Rule\\Controversial\\CamelCaseParameterName"@.len());
            assert("PHPMD\\Rule\\Naming\\ConstantNamingConventions"@ != "PHPMD\\Rule\\Controversial\\CamelCaseParameterName"@);
            assert("PHPMD\\Rule\\Naming\\BooleanGetMethodName"@.len() != "PHPMD\\Rule\\Controversial\\CamelCaseParameterName"@.len());
            assert("PHPMD\\Rule\\Naming\\BooleanGetMethodName"@ != "PHPMD\\Rule\\Controversial\\CamelCaseParameterName"@);
            assert("PHPMD\\Rule\\UnusedPrivateField"@.len() != "PHPMD\\Rule\\Controversial\\CamelCaseParameterName"@.len());
            assert("PHPMD\\Rule\\UnusedPrivateField"@ != "PHPMD\\Rule\\Controversial\\CamelCaseParameterName"@);
            assert("PHPMD\\Rule\\UnusedLocalVariable"@.len() != "PHPMD\\Rule\\Controversial\\CamelCaseParameterName"@.len());
            assert("PHPMD\\Rule\\UnusedLocalVariable"@ != "PHPMD\\Rule\\Controversial\\CamelCaseParameterName"@);
            assert("PHPMD\\Rule\\UnusedPrivateMethod"@.len() != "PHPMD\\Rule\\Controversial\\CamelCaseParameterName"@.len());
            assert("PHPMD\\Rule\\UnusedPrivateMethod"@ != "PHPMD\\Rule\\Controversial\\CamelCaseParameterName"@);
            assert("PHPMD\\Rule\\UnusedFormalParameter"@.len() != "PHPMD\\Rule\\Controversial\\CamelCaseParameterName"@.len());
            assert("PHPMD\\Rule\\UnusedFormalParameter"@ != "PHPMD\\Rule\\Controversial\\CamelCaseParameterName"@);
            assert("PHPMD\\Rule\\CleanCode\\BooleanArgumentFlag"@.len() != "PHPMD\\Rule\\Controversial\\CamelCaseParameterName"@.len());
            assert("PHPMD\\Rule\\CleanCode\\BooleanArgumentFlag"@ != "PHPMD\\Rule\\Controversial\\CamelCaseParameterName"@);
            assert("PHPMD\\Rule\\CleanCode\\ElseExpression"@.len() != "PHPMD\\Rule\\Controversial\\CamelCaseParameterName"@.len());
            assert("PHPMD\\Rule\\CleanCode\\ElseExpression"@ != "PHPMD\\Rule\\Controversial\\CamelCaseParameterName"@);
            assert("PHPMD\\Rule\\CleanCode\\IfStatementAssignment"@.len() != "PHPMD\\Rule\\Controversial\\CamelCaseParameterName"@.len());
            assert("PHPMD\\Rule\\CleanCode\\IfStatementAssignment"@ != "PHPMD\\Rule\\Controversial\\CamelCaseParameterName"@);
            assert("PHPMD\\Rule\\CleanCode\\DuplicatedArrayKey"@.len() != "PHPMD\\Rule\\Controversial\\CamelCaseParameterName"@.len());
            assert("PHPMD\\Rule\\CleanCode\\DuplicatedArrayKey"@ != "PHPMD\\Rule\\Controversial\\CamelCaseParameterName"@);
            assert("PHPMD\\Rule\\CleanCode\\StaticAccess"@.len() != "PHPMD\\Rule\\Controversial\\CamelCaseParameterName"@.len());
            assert("PHPMD\\Rule\\CleanCode\\StaticAccess"@ != "PHPMD\\Rule\\Controversial\\CamelCaseParameterName"@);
            assert("PHPMD\\Rule\\Design\\ExitExpression"@.len() != "PHPMD\\Rule\\Controversial\\CamelCaseParameterName"@.len());
            assert("PHPMD\\Rule\\Design\\ExitExpression"@ != "PHPMD\\Rule\\Controversial\\CamelCaseParameterName"@);
            assert("PHPMD\\Rule\\Design\\GotoStatement"@.len() != "PHPMD\\Rule\\Controversial\\CamelCaseParameterName"@.len());
            assert("PHPMD\\Rule\\Design\\GotoStatement"@ != "PHPMD\\Rule\\Controversial\\CamelCaseParameterName"@);
            assert("PHPMD\\Rule\\Design\\CountInLoopExpression"@.len() != "PHPMD\\Rule\\Controversial\\CamelCaseParameterName"@.len());
            assert("PHPMD\\Rule\\Design\\CountInLoopExpression"@ != "PHPMD\\Rule\\Controversial\\CamelCaseParameterName"@);
            assert("PHPMD\\Rule\\Design\\DevelopmentCodeFragment"@.len() != "PHPMD\\Rule\\Controversial\\CamelCaseParameterName"@.len());
            assert("PHPMD\\Rule\\Design\\DevelopmentCodeFragment"@ != "PHPMD\\Rule\\Controversial\\CamelCaseParameterName"@);
            assert("PHPMD\\Rule\\Design\\EmptyCatchBlock"@.len() != "PHPMD\\Rule\\Controversial\\CamelCaseParameterName"@.len());
            assert("PHPMD\\Rule\\Design\\EmptyCatchBlock"@ != "PHPMD\\Rule\\Controversial\\CamelCaseParameterName"@);
            assert("PHPMD\\Rule\\Design\\CouplingBetweenObjects"@.len() != "PHPMD\\Rule\\Controversial\\CamelCaseParameterName"@.len());
            assert("PHPMD\\Rule\\Design\\CouplingBetweenObjects"@ != "PHPMD\\Rule\\Controversial\\CamelCaseParameterName"@);
            assert("PHPMD\\Rule\\Design\\GlobalVariable"@.len() != "PHPMD\\Rule\\Controversial\\CamelCaseParameterName"@.len());
            assert("PHPMD\\Rule\\Design\\GlobalVariable"@ != "PHPMD\\Rule\\Controversial\\CamelCaseParameterName"@);
            assert("PHPMD\\Rule\\Design\\LackOfCohesionOfMethods"@.len() != "PHPMD\\Rule\\Controversial\\CamelCaseParameterName"@.len());
            assert("PHPMD\\Rule\\Design\\LackOfCohesionOfMethods"@ != "PHPMD\\Rule\\Controversial\\CamelCaseParameterName"@);
            assert("PHPMD\\Rule\\Controversial\\CamelCaseClassName"@.len() != "PHPMD\\Rule\\Controversial\\CamelCaseParameterName"@.len());
            assert("PHPMD\\Rule\\Controversial\\CamelCaseClassName"@ != "PHPMD\\Rule\\Controversial\\CamelCaseParameterName"@);
            assert("PHPMD\\Rule\\Controversial\\CamelCaseMethodName"@.len() != "PHPMD\\Rule\\Controversial\\CamelCaseParameterName"@.len());
            assert("PHPMD\\Rule\\Controversial\\CamelCaseMethodName"@ != "PHPMD\\Rule\\Controversial\\CamelCaseParameterName"@);
            assert("PHPMD\\Rule\\Controversial\\CamelCasePropertyName"@.len() != "PHPMD\\Rule\\Controversial\\CamelCaseParameterName"@.len());
            assert("PHPMD\\Rule\\Controversial\\CamelCasePropertyName"@ != "PHPMD\\Rule\\Controversial\\CamelCaseParameterName"@);
            assert(kind_of_class("PHPMD\\Rule\\Controversial\\CamelCaseParameterName"@) == Some(RuleKind::CamelCaseParameterName));
        },
        RuleKind::CamelCaseVariableName => {
            reveal_strlit("PHPMD\\Rule\\CyclomaticComplexity");
            reveal_strlit("PHPMD\\Rule\\Design\\NpathComplexity");
            reveal_strlit("PHPMD\\Rule\\Design\\LongMethod");
            reveal_strlit("PHPMD\\Rule\\Design\\LongClass");
            reveal_strlit("PHPMD\\Rule\\Design\\LongParameterList");
            reveal_strlit("PHPMD\\Rule\\ExcessivePublicCount");
            reveal_strlit("PHPMD\\Rule\\Design\\TooManyFields");
            reveal_strlit("PHPMD\\Rule\\Design\\TooManyMethods");
            reveal_strlit("PHPMD\\Rule\\Design\\TooManyPublicMethods");
            reveal_strlit("PHPMD\\Rule\\Design\\WeightedMethodCount");
            reveal_strlit("PHPMD\\Rule\\Naming\\ShortClassName");
            reveal_strlit("PHPMD\\Rule\\Naming\\LongClassName");
            reveal_strlit("PHPMD\\Rule\\Naming\\ShortVariable");
            reveal_strlit("PHPMD\\Rule\\Naming\\LongVariable");
            reveal_strlit("PHPMD\\Rule\\Naming\\ShortMethodName");
            reveal_strlit("PHPMD\\Rule\\Naming\\ConstantNamingConventions");
            reveal_strlit("PHPMD\\Rule\\Naming\\BooleanGetMethodName");
            reveal_strlit("PHPMD\\Rule\\UnusedPrivateField");
            reveal_strlit("PHPMD\\Rule\\UnusedLocalVariable");
            reveal_strlit("PHPMD\\Rule\\UnusedPrivateMethod");
            reveal_strlit("PHPMD\\Rule\\UnusedFormalParameter");
            reveal_strlit("PHPMD\\Rule\\CleanCode\\BooleanArgumentFlag");
            reveal_strlit("PHPMD\\Rule\\CleanCode\\ElseExpression");
            reveal_strlit("PHPMD\\Rule\\CleanCode\\IfStatementAssignment");
            reveal_strlit("PHPMD\\Rule\\CleanCode\\DuplicatedArrayKey");
            reveal_strlit("PHPMD\\Rule\\CleanCode\\StaticAccess");
            reveal_strlit("PHPMD\\Rule\\Design\\ExitExpression");
            reveal_strlit("PHPMD\\Rule\\Design\\GotoStatement");
            reveal_strlit("PHPMD\\Rule\\Design\\CountInLoopExpression");
            reveal_strlit("PHPMD\\Rule\\Design\\DevelopmentCodeFragment");
            reveal_strlit("PHPMD\\Rule\\Design\\EmptyCatchBlock");
            reveal_strlit("PHPMD\\Rule\\Design\\CouplingBetweenObjects");
            reveal_strlit("PHPMD\\Rule\\Design\\GlobalVariable");
            reveal_strlit("PHPMD\\Rule\\Design\\LackOfCohesionOfMethods");
            reveal_strlit("PHPMD\\Rule\\Controversial\\CamelCaseClassName");
            reveal_strlit("PHPMD\\Rule\\Controversial\\CamelCaseMethodName");
            reveal_strlit("PHPMD\\Rule\\Controversial\\CamelCasePropertyName");
            reveal_strlit("PHPMD\\Rule\\Controversial\\CamelCaseParameterName");
            reveal_strlit("PHPMD\\Rule\\Controversial\\CamelCaseVariableName");
            assert("PHPMD\\Rule\\CyclomaticComplexity"@.len() != "PHPMD\\Rule\\Controversial\\CamelCaseVariableName"@.len());
            assert("PHPMD\\Rule\\CyclomaticComplexity"@ != "PHPMD\\Rule\\Controversial\\CamelCaseVariableName"@);
            assert("PHPMD\\Rule\\Design\\NpathComplexity"@.len() != "PHPMD\\Rule\\Controversial\\CamelCaseVariableName"@.len());
            assert("PHPMD\\Rule\\Design\\NpathComplexity"@ != "PHPMD\\Rule\\Controversial\\CamelCaseVariableName"@);
            assert("PHPMD\\Rule\\Design\\LongMethod"@.len() != "PHPMD\\Rule\\Controversial\\CamelCaseVariableName"@.len());
            assert("PHPMD\\Rule\\Design\\LongMethod"@ != "PHPMD\\Rule\\Controversial\\CamelCaseVariableName"@);
            assert("PHPMD\\Rule\\Design\\LongClass"@.len() != "PHPMD\\Rule\\Controversial\\CamelCaseVariableName"@.len());
            assert("PHPMD\\Rule\\Design\\LongClass"@ != "PHPMD\\Rule\\Controversial\\CamelCaseVariableName"@);
            assert("PHPMD\\Rule\\Design\\LongParameterList"@.len() != "PHPMD\\Rule\\Controversial\\CamelCaseVariableName"@.len());
            assert("PHPMD\\Rule\\Design\\LongParameterList"@ != "PHPMD\\Rule\\Controversial\\CamelCaseVariableName"@);
            assert("PHPMD\\Rule\\ExcessivePublicCount"@.len() != "PHPMD\\Rule\\Controversial\\CamelCaseVariableName"@.len());
            assert("PHPMD\\Rule\\ExcessivePublicCount"@ != "PHPMD\\Rule\\Controversial\\CamelCaseVariableName"@);
            assert("PHPMD\\Rule\\Design\\TooManyFields"@.len() != "PHPMD\\Rule\\Controversial\\CamelCaseVariableName"@.len());
            assert("PHPMD\\Rule\\Design\\TooManyFields"@ != "PHPMD\\Rule\\Controversial\\CamelCaseVariableName"@);
            assert("PHPMD\\Rule\\Design\\TooManyMethods"@.len() != "PHPMD\\Rule\\Controversial\\CamelCaseVariableName"@.len());
            assert("PHPMD\\Rule\\Design\\TooManyMethods"@ != "PHPMD\\Rule\\Controversial\\CamelCaseVariableName"@);
            assert("PHPMD\\Rule\\Design\\TooManyPublicMethods"@.len() != "PHPMD\\Rule\\Controversial\\CamelCaseVariableName"@.len());
            assert("PHPMD\\Rule\\Design\\TooManyPublicMethods"@ != "PHPMD\\Rule\\Controversial\\CamelCaseVariableName"@);
            assert("PHPMD\\Rule\\Design\\WeightedMethodCount"@.len() != "PHPMD\\Rule\\Controversial\\CamelCaseVariableName"@.len());
            assert("PHPMD\\Rule\\Design\\WeightedMethodCount"@ != "PHPMD\\Rule\\Controversial\\CamelCaseVariableName"@);
            assert("PHPMD\\Rule\\Naming\\ShortClassName"@.len() != "PHPMD\\Rule\\Controversial\\CamelCaseVariableName"@.len());
            assert("PHPMD\\Rule\\Naming\\ShortClassName"@ != "PHPMD\\Rule\\Controversial\\CamelCaseVariableName"@);
            assert("PHPMD\\Rule\\Naming\\LongClassName"@.len() != "PHPMD\\Rule\\Controversial\\CamelCaseVariableName"@.len());
            assert("PHPMD\\Rule\\Naming\\LongClassName"@ != "PHPMD\\Rule\\Controversial\\CamelCaseVariableName"@);
            assert("PHPMD\\Rule\\Naming\\ShortVariable"@.len() != "PHPMD\\Rule\\Controversial\\CamelCaseVariableName"@.len());
            assert("PHPMD\\Rule\\Naming\\ShortVariable"@ != "PHPMD\\Rule\\Controversial\\CamelCaseVariableName"@);
            assert("PHPMD\\Rule\\Naming\\LongVariable"@.len() != "PHPMD\\Rule\\Controversial\\CamelCaseVariableName"@.len());
            assert("PHPMD\\Rule\\Naming\\LongVariable"@ != "PHPMD\\Rule\\Controversial\\CamelCaseVariableName"@);
            assert("PHPMD\\Rule\\Naming\\ShortMethodName"@.len() != "PHPMD\\Rule\\Controversial\\CamelCaseVariableName"@.len());
            assert("PHPMD\\Rule\\Naming\\ShortMethodName"@ != "PHPMD\\Rule\\Controversial\\CamelCaseVariableName"@);
            assert("PHPMD\\Rule\\Naming\\ConstantNamingConventions"@.len() != "PHPMD\\Rule\\Controversial\\CamelCaseVariableName"@.len());
            assert("PHPMD\\Rule\\Naming\\ConstantNamingConventions"@ != "PHPMD\\Rule\\Controversial\\CamelCaseVariableName"@);
            assert("PHPMD\\Rule\\Naming\\BooleanGetMethodName"@.len() != "PHPMD\\Rule\\Controversial\\CamelCaseVariableName"@.len());
            assert("PHPMD\\Rule\\Naming\\BooleanGetMethodName"@ != "PHPMD\\Rule\\Controversial\\CamelCaseVariableName"@);
            assert("PHPMD\\Rule\\UnusedPrivateField"@.len() != "PHPMD\\Rule\\Controversial\\CamelCaseVariableName"@.len());
            assert("PHPMD\\Rule\\UnusedPrivateField"@ != "PHPMD\\Rule\\Controversial\\CamelCaseVariableName"@);
            assert("PHPMD\\Rule\\UnusedLocalVariable"@.len() != "PHPMD\\Rule\\Controversial\\CamelCaseVariableName"@.len());
            assert("PHPMD\\Rule\\UnusedLocalVariable"@ != "PHPMD\\Rule\\Controversial\\CamelCaseVariableName"@);
            assert("PHPMD\\Rule\\UnusedPrivateMethod"@.len() != "PHPMD\\Rule\\Controversial\\CamelCaseVariableName"@.len());
            assert("PHPMD\\Rule\\UnusedPrivateMethod"@ != "PHPMD\\Rule\\Controversial\\CamelCaseVariableName"@);
            assert("PHPMD\\Rule\\UnusedFormalParameter"@.len() != "PHPMD\\Rule\\Controversial\\CamelCaseVariableName"@.len());
            assert("PHPMD\\Rule\\UnusedFormalParameter"@ != "PHPMD\\Rule\\Controversial\\CamelCaseVariableName"@);
            assert("PHPMD\\Rule\\CleanCode\\BooleanArgumentFlag"@.len() != "PHPMD\\Rule\\Controversial\\CamelCaseVariableName"@.len());
            assert("PHPMD\\Rule\\CleanCode\\BooleanArgumentFlag"@ != "PHPMD\\Rule\\Controversial\\CamelCaseVariableName"@);
            assert("PHPMD\\Rule\\CleanCode\\ElseExpression"@.len() != "PHPMD\\Rule\\Controversial\\CamelCaseVariableName"@.len());
            assert("PHPMD\\Rule\\CleanCode\\ElseExpression"@ != "PHPMD\\Rule\\Controversial\\CamelCaseVariableName"@);
            assert("PHPMD\\Rule\\CleanCode\\IfStatementAssignment"@.len() != "PHPMD\\Rule\\Controversial\\CamelCaseVariableName"@.len());
            assert("PHPMD\\Rule\\CleanCode\\IfStatementAssignment"@ != "PHPMD\\Rule\\Controversial\\CamelCaseVariableName"@);
            assert("PHPMD\\Rule\\CleanCode\\DuplicatedArrayKey"@.len() != "PHPMD\\Rule\\Controversial\\CamelCaseVariableName"@.len());
            assert("PHPMD\\Rule\\CleanCode\\DuplicatedArrayKey"@ != "PHPMD\\Rule\\Controversial\\CamelCaseVariableName"@);
            assert("PHPMD\\Rule\\CleanCode\\StaticAccess"@.len() != "PHPMD\\Rule\\Controversial\\CamelCaseVariableName"@.len());
            assert("PHPMD\\Rule\\CleanCode\\StaticAccess"@ != "PHPMD\\Rule\\Controversial\\CamelCaseVariableName"@);
            assert("PHPMD\\Rule\\Design\\ExitExpression"@.len() != "PHPMD\\Rule\\Controversial\\CamelCaseVariableName"@.len());
            assert("PHPMD\\Rule\\Design\\ExitExpression"@ != "PHPMD\\Rule\\Controversial\\CamelCaseVariableName"@);
            assert("PHPMD\\Rule\\Design\\GotoStatement"@.len() != "PHPMD\\Rule\\Controversial\\CamelCaseVariableName"@.len());
            assert("PHPMD\\Rule\\Design\\GotoStatement"@ != "PHPMD\\Rule\\Controversial\\CamelCaseVariableName"@);
            assert("PHPMD\\Rule\\Design\\CountInLoopExpression"@.len() != "PHPMD\\Rule\\Controversial\\CamelCaseVariableName"@.len());
            assert("PHPMD\\Rule\\Design\\CountInLoopExpression"@ != "PHPMD\\Rule\\Controversial\\CamelCaseVariableName"@);
            assert("PHPMD\\Rule\\Design\\DevelopmentCodeFragment"@.len() != "PHPMD\\Rule\\Controversial\\CamelCaseVariableName"@.len());
            assert("PHPMD\\Rule\\Design\\DevelopmentCodeFragment"@ != "PHPMD\\Rule\\Controversial\\CamelCaseVariableName"@);
            assert("PHPMD\\Rule\\Design\\EmptyCatchBlock"@.len() != "PHPMD\\Rule\\Controversial\\CamelCaseVariableName"@.len());
            assert("PHPMD\\Rule\\Design\\EmptyCatchBlock"@ != "PHPMD\\Rule\\Controversial\\CamelCaseVariableName"@);
            assert("PHPMD\\Rule\\Design\\CouplingBetweenObjects"@.len() != "PHPMD\\Rule\\Controversial\\CamelCaseVariableName"@.len());
            assert("PHPMD\\Rule\\Design\\CouplingBetweenObjects"@ != "PHPMD\\Rule\\Controversial\\CamelCaseVariableName"@);
            assert("PHPMD\\Rule\\Design\\GlobalVariable"@.len() != "PHPMD\\Rule\\Controversial\\CamelCaseVariableName"@.len());
            assert("PHPMD\\Rule\\Design\\GlobalVariable"@ != "PHPMD\\Rule\\Controversial\\CamelCaseVariableName"@);
            assert("PHPMD\\Rule\\Design\\LackOfCohesionOfMethods"@.len() != "PHPMD\\Rule\\Controversial\\CamelCaseVariableName"@.len());
            assert("PHPMD\\Rule\\Design\\LackOfCohesionOfMethods"@ != "PHPMD\\Rule\\Controversial\\CamelCaseVariableName"@);
            assert("PHPMD\\Rule\\Controversial\\CamelCaseClassName"@.len() != "PHPMD\\Rule\\Controversial\\CamelCaseVariableName"@.len());
            assert("PHPMD\\Rule\\Controversial\\CamelCaseClassName"@ != "PHPMD\\Rule\\Controversial\\CamelCaseVariableName"@);
            assert("PHPMD\\Rule\\Controversial\\CamelCaseMethodName"@.len() != "PHPMD\\Rule\\Controversial\\CamelCaseVariableName"@.len());
            assert("PHPMD\\Rule\\Controversial\\CamelCaseMethodName"@ != "PHPMD\\Rule\\Controversial\\CamelCaseVariableName"@);
            assert("PHPMD\\Rule\\Controversial\\CamelCasePropertyName"@[34] != "PHPMD\\Rule\\Controversial\\CamelCaseVariableName"@[34]);
            assert("PHPMD\\Rule\\Controversial\\CamelCasePropertyName"@ != "PHPMD\\Rule\\Controversial\\CamelCaseVariableName"@);
            assert("PHPMD\\Rule\\Controversial\\CamelCaseParameterName"@.len() != "PHPMD\\Rule\\Controversial\\CamelCaseVariableName"@.len());
            assert("PHPMD\\Rule\\Controversial\\CamelCaseParameterName"@ != "PHPMD\\Rule\\Controversial\\CamelCaseVariableName"@);
            assert(kind_of_class("PHPMD\\Rule\\Controversial\\CamelCaseVariableName"@) == Some(RuleKind::CamelCaseVariableName));
        },
    }
}

fn class_is(c: &Vec<char>, s: &str) -> (b: bool)
    ensures
        b == (c@ == s@),
{
    let w = chars_of(s);
    crate::text::chars_eq(c, &w)
}

/// The rule kind implementing a PHPMD rule class, if one does.
pub fn resolve_kind(class: &String) -> (r: Option<RuleKind>)
    ensures
        r == kind_of_class(class@),
{
    let c = chars_of_string(class);
    if class_is(&c, "PHPMD\\Rule\\CyclomaticComplexity") { Some(RuleKind::CyclomaticComplexity) }
    else if class_is(&c, "PHPMD\\Rule\\Design\\NpathComplexity") { Some(RuleKind::NPathComplexity) }
    else if class_is(&c, "PHPMD\\Rule\\Design\\LongMethod") { Some(RuleKind::ExcessiveMethodLength) }
    else if class_is(&c, "PHPMD\\Rule\\Design\\LongClass") { Some(RuleKind::ExcessiveClassLength) }
    else if class_is(&c, "PHPMD\\Rule\\Design\\LongParameterList") { Some(RuleKind::ExcessiveParameterList) }
    else if class_is(&c, "PHPMD\\Rule\\ExcessivePublicCount") { Some(RuleKind::ExcessivePublicCount) }
    else if class_is(&c, "PHPMD\\Rule\\Design\\TooManyFields") { Some(RuleKind::TooManyFields) }
    else if class_is(&c, "PHPMD\\Rule\\Design\\TooManyMethods") { Some(RuleKind::TooManyMethods) }
    else if class_is(&c, "PHPMD\\Rule\\Design\\TooManyPublicMethods") { Some(RuleKind::TooManyPublicMethods) }
    else if class_is(&c, "PHPMD\\Rule\\Design\\WeightedMethodCount") { Some(RuleKind::ExcessiveClassComplexity) }
    else if class_is(&c, "PHPMD\\Rule\\Naming\\ShortClassName") { Some(RuleKind::ShortClassName) }
    else if class_is(&c, "PHPMD\\Rule\\Naming\\LongClassName") { Some(RuleKind::LongClassName) }
    else if class_is(&c, "PHPMD\\Rule\\Naming\\ShortVariable") { Some(RuleKind::ShortVariable) }
    else if class_is(&c, "PHPMD\\Rule\\Naming\\LongVariable") { Some(RuleKind::LongVariable) }
    else if class_is(&c, "PHPMD\\Rule\\Naming\\ShortMethodName") { Some(RuleKind::ShortMethodName) }
    else if class_is(&c, "PHPMD\\Rule\\Naming\\ConstantNamingConventions") { Some(RuleKind::ConstantNamingConventions) }
    else if class_is(&c, "PHPMD\\Rule\\Naming\\BooleanGetMethodName") { Some(RuleKind::BooleanGetMethodName) }
    else if class_is(&c, "PHPMD\\Rule\\UnusedPrivateField") { Some(RuleKind::UnusedPrivateField) }
    else if class_is(&c, "PHPMD\\Rule\\UnusedLocalVariable") { Some(RuleKind::UnusedLocalVariable) }
    else if class_is(&c, "PHPMD\\Rule\\UnusedPrivateMethod") { Some(RuleKind::UnusedPrivateMethod) }
    else if class_is(&c, "PHPMD\\Rule\\UnusedFormalParameter") { Some(RuleKind::UnusedFormalParameter) }
    else if class_is(&c, "PHPMD\\Rule\\CleanCode\\BooleanArgumentFlag") { Some(RuleKind::BooleanArgumentFlag) }
    else if class_is(&c, "PHPMD\\Rule\\CleanCode\\ElseExpression") { Some(RuleKind::ElseExpression) }
    else if class_is(&c, "PHPMD\\Rule\\CleanCode\\IfStatementAssignment") { Some(RuleKind::IfStatementAssignment) }
    else if class_is(&c, "PHPMD\\Rule\\CleanCode\\DuplicatedArrayKey") { Some(RuleKind::DuplicatedArrayKey) }
    else if class_is(&c, "PHPMD\\Rule\\CleanCode\\StaticAccess") { Some(RuleKind::StaticAccess) }
    else if class_is(&c, "PHPMD\\Rule\\Design\\ExitExpression") { Some(RuleKind::ExitExpression) }
    else if class_is(&c, "PHPMD\\Rule\\Design\\GotoStatement") { Some(RuleKind::GotoStatement) }
    else if class_is(&c, "PHPMD\\Rule\\Design\\CountInLoopExpression") { Some(RuleKind::CountInLoopExpression) }
    else if class_is(&c, "PHPMD\\Rule\\Design\\DevelopmentCodeFragment") { Some(RuleKind::DevelopmentCodeFragment) }
    else if class_is(&c, "PHPMD\\Rule\\Design\\EmptyCatchBlock") { Some(RuleKind::EmptyCatchBlock) }
    else if class_is(&c, "PHPMD\\Rule\\Design\\CouplingBetweenObjects") { Some(RuleKind::CouplingBetweenObjects) }
    else if class_is(&c, "PHPMD\\Rule\\Design\\GlobalVariable") { Some(RuleKind::GlobalVariable) }
    else if class_is(&c, "PHPMD\\Rule\\Design\\LackOfCohesionOfMethods") { Some(RuleKind::LackOfCohesionOfMethods) }
    else if class_is(&c, "PHPMD\\Rule\\Controversial\\CamelCaseClassName") { Some(RuleKind::CamelCaseClassName) }
    else if class_is(&c, "PHPMD\\Rule\\Controversial\\CamelCaseMethodName") { Some(RuleKind::CamelCaseMethodName) }
    else if class_is(&c, "PHPMD\\Rule\\Controversial\\CamelCasePropertyName") { Some(RuleKind::CamelCasePropertyName) }
    else if class_is(&c, "PHPMD\\Rule\\Controversial\\CamelCaseParameterName") { Some(RuleKind::CamelCaseParameterName) }
    else if class_is(&c, "PHPMD\\Rule\\Controversial\\CamelCaseVariableName") { Some(RuleKind::CamelCaseVariableName) }
    else { None }
}

// ----- identifiers ------------------------------------------------------------

/// The last component of a path (`Path::file_name`).
pub uninterp spec fn file_name_of(path: Seq<char>) -> Option<Seq<char>>;

/// The last component of a path without its extension (`Path::file_stem`).
pub uninterp spec fn file_stem_of(path: Seq<char>) -> Option<Seq<char>>;

/// `Path::file_name` of `path`, as text.
#[verifier::external_body]
fn path_file_name(path: &str) -> (r: Option<String>)
    ensures
        r matches Some(n) ==> file_name_of(path@) == Some(n@),
        r is None ==> file_name_of(path@) is None,
{
    std::path::Path::new(path).file_name().and_then(|n| n.to_str()).map(|n| n.to_string())
}

/// `Path::file_stem` of `path`, as text.
#[verifier::external_body]
fn path_file_stem(path: &str) -> (r: Option<String>)
    ensures
        r matches Some(n) ==> file_stem_of(path@) == Some(n@),
        r is None ==> file_stem_of(path@) is None,
{
    std::path::Path::new(path).file_stem().and_then(|n| n.to_str()).map(|n| n.to_string())
}

/// The built-in rulesets.
pub open spec fn builtin_name(stem: Seq<char>) -> bool {
    stem == "codesize"@ || stem == "naming"@ || stem == "unusedcode"@ || stem == "cleancode"@
        || stem == "design"@ || stem == "controversial"@ || stem == "rust"@ || stem
        == "opinionated"@
}

/// `s` with every `\\` written as `/`.
pub open spec fn slashes(s: Seq<char>) -> Seq<char> {
    s.map_values(|c: char| if c == '\\' { '/' } else { c })
}

/// `s` without a trailing `.xml`.
pub open spec fn without_xml(s: Seq<char>) -> Seq<char> {
    if s.len() >= 4 && s.skip(s.len() - 4) == ".xml"@ {
        s.take(s.len() - 4)
    } else {
        s
    }
}

/// The built-in ruleset an identifier names: its lowercased last path
/// component without `.xml`, when that is a built-in name.
pub open spec fn builtin_key(ident: Seq<char>) -> Option<Seq<char>> {
    let l = slashes(lower(ident));
    let base = match file_name_of(l) {
        Some(b) => b,
        None => l,
    };
    let stem = without_xml(base);
    if builtin_name(stem) {
        Some(stem)
    } else {
        None
    }
}

fn is_builtin_name(v: &Vec<char>) -> (b: bool)
    ensures
        b == builtin_name(v@),
{
    let w0 = chars_of("codesize");
    let w1 = chars_of("naming");
    let w2 = chars_of("unusedcode");
    let w3 = chars_of("cleancode");
    let w4 = chars_of("design");
    let w5 = chars_of("controversial");
    let w6 = chars_of("rust");
    let w7 = chars_of("opinionated");
    crate::text::chars_eq(v, &w0) || crate::text::chars_eq(v, &w1) || crate::text::chars_eq(v, &w2)
        || crate::text::chars_eq(v, &w3) || crate::text::chars_eq(v, &w4) || crate::text::chars_eq(
        v,
        &w5,
    ) || crate::text::chars_eq(v, &w6) || crate::text::chars_eq(v, &w7)
}

/// The built-in ruleset `ident` names, if it names one.
pub fn normalize_builtin_key(ident: &str) -> (r: Option<String>)
    ensures
        r matches Some(k) ==> builtin_key(ident@) == Some(k@),
        r is None ==> builtin_key(ident@) is None,
{
    let v = chars_of(ident);
    let mut l: Vec<char> = Vec::new();
    let mut i: usize = 0;
    while i < v.len()
        invariant
            i <= v.len(),
            v@ == ident@,
            l@ == slashes(lower(v@.take(i as int))),
        decreases v.len() - i,
    {
        let c = crate::text::lower_of(v[i]);
        l.push(if c == '\\' { '/' } else { c });
        i = i + 1;
        assert(slashes(lower(v@.take(i as int))) =~= slashes(lower(v@.take(i - 1))).push(
            if crate::text::lower_char(v@[i - 1]) == '\\' { '/' } else { crate::text::lower_char(v@[i - 1]) },
        ));
    }
    assert(v@.take(v.len() as int) =~= v@);
    let ls = string_of(&l);
    let base = match path_file_name(ls.as_str()) {
        Some(b) => chars_of_string(&b),
        None => l,
    };
    let stem = if base.len() >= 4 && base[base.len() - 4] == '.' && base[base.len() - 3] == 'x'
        && base[base.len() - 2] == 'm' && base[base.len() - 1] == 'l' {
        proof {
            reveal_strlit(".xml");
            assert(base@.skip(base.len() - 4) =~= ".xml"@);
        }
        crate::text::slice_of(&base, 0, base.len() - 4)
    } else {
        proof {
            reveal_strlit(".xml");
            if base.len() >= 4 {
                assert(base@.skip(base.len() - 4) != ".xml"@) by {
                    if base@.skip(base.len() - 4) == ".xml"@ {
                        assert(base@.skip(base.len() - 4)[0] == base@[base.len() - 4]);
                        assert(base@.skip(base.len() - 4)[1] == base@[base.len() - 3]);
                        assert(base@.skip(base.len() - 4)[2] == base@[base.len() - 2]);
                        assert(base@.skip(base.len() - 4)[3] == base@[base.len() - 1]);
                    }
                }
            }
        }
        base
    };
    assert(stem@ == without_xml(match file_name_of(slashes(lower(ident@))) {
        Some(b) => b,
        None => slashes(lower(ident@)),
    }));
    if is_builtin_name(&stem) {
        Some(string_of(&stem))
    } else {
        None
    }
}

/// What the caller found out about a ruleset identifier.
pub struct SourceFacts {
    pub ident: String,
    /// Whether the identifier is the path of an existing file.
    pub is_file: bool,
    /// For a file, its canonical path, or the message of the failure.
    pub canonical: Result<String, String>,
    /// For a file, its text, or the message of the failure.
    pub contents: Result<String, String>,
    /// The text of the built-in ruleset the identifier names, when the
    /// program carries one.
    pub builtin: Option<String>,
}

/// What loading needs next, or its result.
pub enum LoadError {
    /// The facts about this identifier are needed.
    Need(String),
    /// Loading failed with this message.
    Failed(String),
}

/// A load error as plain values.
pub enum LoadErrorView {
    Need(Seq<char>),
    Failed(Seq<char>),
}

impl View for LoadError {
    type V = LoadErrorView;

    open spec fn view(&self) -> LoadErrorView {
        match self {
            LoadError::Need(n) => LoadErrorView::Need(n@),
            LoadError::Failed(m) => LoadErrorView::Failed(m@),
        }
    }
}

/// The position of the first facts about `ident`, from `k` on.
pub open spec fn facts_from(catalog: Seq<SourceFacts>, ident: Seq<char>, k: int) -> Option<int>
    decreases catalog.len() - k,
{
    if k < 0 || k >= catalog.len() {
        None
    } else if catalog[k].ident@ == ident {
        Some(k)
    } else {
        facts_from(catalog, ident, k + 1)
    }
}

/// Whether `ident` names a built-in ruleset or an existing file; the facts
/// about it are needed to tell.
pub open spec fn resolvable(catalog: Seq<SourceFacts>, ident: Seq<char>) -> Result<bool, LoadErrorView> {
    if builtin_key(ident) is Some {
        Ok(true)
    } else {
        match facts_from(catalog, ident, 0) {
            Some(i) => Ok(catalog[i].is_file),
            None => Err(LoadErrorView::Need(ident)),
        }
    }
}

/// The position of the last `/` of `s` before `n`.
pub open spec fn last_slash_before(s: Seq<char>, n: int) -> Option<int>
    decreases n,
{
    if n <= 0 || n > s.len() {
        None
    } else if s[n - 1] == '/' {
        Some(n - 1)
    } else {
        last_slash_before(s, n - 1)
    }
}

/// The ruleset a `ref` names and the rule it picks (empty for the whole
/// ruleset): the whole text when it resolves, else the part before its last
/// `/` when that resolves, else the whole text.
pub open spec fn split_ref_spec(catalog: Seq<SourceFacts>, r: Seq<char>) -> Result<(Seq<char>, Seq<char>), LoadErrorView> {
    match resolvable(catalog, r) {
        Err(e) => Err(e),
        Ok(true) => Ok((r, Seq::empty())),
        Ok(false) => match last_slash_before(r, r.len() as int) {
            Some(i) => match resolvable(catalog, r.take(i)) {
                Err(e) => Err(e),
                Ok(true) => Ok((r.take(i), r.skip(i + 1))),
                Ok(false) => Ok((r, Seq::empty())),
            },
            None => Ok((r, Seq::empty())),
        },
    }
}

/// A file's stem, a built-in key, or the stem of what was given.
pub open spec fn display_name_spec(f: SourceFacts, ident: Seq<char>) -> Seq<char> {
    let stem = match file_stem_of(ident) {
        Some(s) => s,
        None => ident,
    };
    if f.is_file {
        stem
    } else {
        match builtin_key(ident) {
            Some(k) => k,
            None => stem,
        }
    }
}

/// A ruleset source as plain values.
pub struct SourceView {
    pub id: Seq<char>,
    pub display_name: Seq<char>,
    pub name: Seq<char>,
    pub rules: Seq<RuleDoc>,
}

/// The ruleset `ident` names: the file's canonical path or `builtin:` and
/// the key as its id, and the parsed text of the file or built-in ruleset.
pub open spec fn source_spec(catalog: Seq<SourceFacts>, ident: Seq<char>) -> Result<SourceView, LoadErrorView> {
    match facts_from(catalog, ident, 0) {
        None => Err(LoadErrorView::Need(ident)),
        Some(i) => {
            let f = catalog[i];
            let unknown = LoadErrorView::Failed("unknown ruleset or file: "@ + ident);
            let id: Result<Seq<char>, LoadErrorView> = if f.is_file {
                match f.canonical {
                    Ok(c) => Ok(c@),
                    Err(e) => Err(LoadErrorView::Failed(e@)),
                }
            } else {
                match builtin_key(ident) {
                    Some(k) => Ok("builtin:"@ + k),
                    None => Err(unknown),
                }
            };
            let xml: Result<Seq<char>, LoadErrorView> = if f.is_file {
                match f.contents {
                    Ok(t) => Ok(t@),
                    Err(e) => Err(LoadErrorView::Failed(e@)),
                }
            } else {
                match f.builtin {
                    Some(t) => Ok(t@),
                    None => Err(unknown),
                }
            };
            match id {
                Err(e) => Err(e),
                Ok(id) => match xml {
                    Err(e) => Err(e),
                    Ok(xml) => match xml_parse(xml) {
                        Err(m) => Err(LoadErrorView::Failed("invalid ruleset XML: "@ + m)),
                        Ok(vals) => match ruleset_doc(vals) {
                            Err(m) => Err(LoadErrorView::Failed(m)),
                            Ok(doc) => Ok(SourceView { id, display_name: display_name_spec(f, ident), name: doc.0, rules: doc.1 }),
                        },
                    },
                },
            }
        },
    }
}

/// The name rules of source `src` are loaded under: its declared name, or
/// its display name.
pub open spec fn set_name_spec(src: SourceView) -> Seq<char> {
    if src.name.len() == 0 {
        src.display_name
    } else {
        src.name
    }
}

/// The facts about `ident` among `catalog`.
fn facts_for<'a>(catalog: &'a Vec<SourceFacts>, ident: &str) -> (r: Result<&'a SourceFacts, LoadError>)
    ensures
        r matches Ok(f) ==> f.ident@ == ident@ && (facts_from(catalog@, ident@, 0) matches Some(i) && *f == catalog@[i]),
        r matches Err(e) ==> e matches LoadError::Need(n) && n@ == ident@ && facts_from(catalog@, ident@, 0) is None,
{
    let k = chars_of(ident);
    let mut i: usize = 0;
    while i < catalog.len()
        invariant
            i <= catalog.len(),
            k@ == ident@,
            facts_from(catalog@, ident@, 0) == facts_from(catalog@, ident@, i as int),
        decreases catalog.len() - i,
    {
        let n = chars_of_string(&catalog[i].ident);
        if crate::text::chars_eq(&n, &k) {
            return Ok(&catalog[i]);
        }
        i = i + 1;
    }
    Err(LoadError::Need(string_of(&k)))
}

fn unknown_ruleset(ident: &str) -> (r: String)
    ensures
        r@ == "unknown ruleset or file: "@ + ident@,
{
    let mut m = chars_of("unknown ruleset or file: ");
    let i = chars_of(ident);
    push_all(&mut m, &i);
    string_of(&m)
}

/// Whether `ident` names a built-in ruleset or an existing file.
fn is_resolvable(catalog: &Vec<SourceFacts>, ident: &str) -> (r: Result<bool, LoadError>)
    ensures
        match r {
            Ok(b) => resolvable(catalog@, ident@) == Ok::<bool, LoadErrorView>(b),
            Err(e) => resolvable(catalog@, ident@) == Err::<bool, LoadErrorView>(e@),
        },
{
    if normalize_builtin_key(ident).is_some() {
        return Ok(true);
    }
    match facts_for(catalog, ident) {
        Ok(f) => Ok(f.is_file),
        Err(e) => Err(e),
    }
}

/// The display name of a ruleset identifier: a file's stem, a built-in
/// key, or the stem of what was given.
fn ruleset_display_name(f: &SourceFacts, ident: &str) -> (r: String)
    ensures
        r@ == display_name_spec(*f, ident@),
{
    if f.is_file {
        return match path_file_stem(ident) {
            Some(s) => s,
            None => string_of(&chars_of(ident)),
        };
    }
    match normalize_builtin_key(ident) {
        Some(k) => k,
        None => match path_file_stem(ident) {
            Some(s) => s,
            None => string_of(&chars_of(ident)),
        },
    }
}

/// A ruleset source: its stable id, its display name and its rules.
pub struct Source {
    pub id: String,
    pub display_name: String,
    pub ruleset: XmlRuleset,
}

impl View for Source {
    type V = SourceView;

    open spec fn view(&self) -> SourceView {
        SourceView { id: self.id@, display_name: self.display_name@, name: self.ruleset.name@, rules: rule_docs(self.ruleset.rules@) }
    }
}

/// Reads and parses the ruleset `ident` names.
fn source(catalog: &Vec<SourceFacts>, ident: &str) -> (r: Result<Source, LoadError>)
    ensures
        match r {
            Ok(src) => source_spec(catalog@, ident@) == Ok::<SourceView, LoadErrorView>(src@),
            Err(e) => source_spec(catalog@, ident@) == Err::<SourceView, LoadErrorView>(e@),
        },
{
    let f = match facts_for(catalog, ident) {
        Ok(f) => f,
        Err(e) => return Err(e),
    };
    let key = normalize_builtin_key(ident);
    let id = if f.is_file {
        match &f.canonical {
            Ok(c) => c.clone(),
            Err(e) => return Err(LoadError::Failed(e.clone())),
        }
    } else {
        match &key {
            Some(k) => {
                let mut m = chars_of("builtin:");
                let kc = chars_of_string(k);
                push_all(&mut m, &kc);
                string_of(&m)
            },
            None => return Err(LoadError::Failed(unknown_ruleset(ident))),
        }
    };
    let xml = if f.is_file {
        match &f.contents {
            Ok(t) => t.clone(),
            Err(e) => return Err(LoadError::Failed(e.clone())),
        }
    } else {
        match &f.builtin {
            Some(t) => t.clone(),
            None => return Err(LoadError::Failed(unknown_ruleset(ident))),
        }
    };
    let ruleset = match parse_ruleset(xml.as_str()) {
        Ok(r) => r,
        Err(e) => return Err(LoadError::Failed(e)),
    };
    Ok(Source { id, display_name: ruleset_display_name(f, ident), ruleset })
}

/// The last `/` of `s`.
fn last_slash(v: &Vec<char>) -> (r: Option<usize>)
    ensures
        r matches Some(k) ==> k < v.len() && v@[k as int] == '/' && last_slash_before(v@, v@.len() as int) == Some(k as int),
        r is None ==> last_slash_before(v@, v@.len() as int) is None,
{
    let mut n = v.len();
    while n > 0
        invariant
            n <= v.len(),
            last_slash_before(v@, v@.len() as int) == last_slash_before(v@, n as int),
        decreases n,
    {
        if v[n - 1] == '/' {
            return Some(n - 1);
        }
        n = n - 1;
    }
    None
}

/// Splits a `ref` into the ruleset it names and a rule name (empty for a
/// whole ruleset).
fn split_ref(catalog: &Vec<SourceFacts>, ref_str: &str) -> (r: Result<(String, String), LoadError>)
    ensures
        match r {
            Ok(p) => split_ref_spec(catalog@, ref_str@) == Ok::<(Seq<char>, Seq<char>), LoadErrorView>((p.0@, p.1@)),
            Err(e) => split_ref_spec(catalog@, ref_str@) == Err::<(Seq<char>, Seq<char>), LoadErrorView>(e@),
        },
{
    match is_resolvable(catalog, ref_str) {
        Ok(true) => return Ok((string_of(&chars_of(ref_str)), String::new())),
        Ok(false) => {},
        Err(e) => return Err(e),
    }
    let v = chars_of(ref_str);
    match last_slash(&v) {
        Some(idx) => {
            let base = string_of(&crate::text::slice_of(&v, 0, idx));
            match is_resolvable(catalog, base.as_str()) {
                Ok(true) => {
                    let rule = string_of(&crate::text::slice_of(&v, idx + 1, v.len()));
                    return Ok((base, rule));
                },
                Ok(false) => {},
                Err(e) => return Err(e),
            }
        },
        None => {},
    }
    Ok((string_of(&v), String::new()))
}

/// The position of the first `/` of `s` from `k` on.
pub open spec fn first_slash_from(s: Seq<char>, k: int) -> Option<int>
    decreases s.len() - k,
{
    if k < 0 || k >= s.len() {
        None
    } else if s[k] == '/' {
        Some(k)
    } else {
        first_slash_from(s, k + 1)
    }
}

/// The name a ruleset entry goes by: its name, or the part of its `ref`
/// after the first `/`, or its whole `ref`.
pub open spec fn entry_name(r: RuleDoc) -> Seq<char> {
    if r.name.len() > 0 {
        r.name
    } else {
        match first_slash_from(r.ref_path, 0) {
            Some(i) => r.ref_path.skip(i + 1),
            None => r.ref_path,
        }
    }
}

/// The name a ruleset entry goes by: its name, or the part of its `ref`
/// after the first `/`, or its whole `ref`.
fn rule_name_or_ref(rule: &XmlRule) -> (r: String)
    ensures
        r@ == entry_name(rule@),
{
    if !attribute_is_empty(&rule.name) {
        return rule.name.clone();
    }
    let v = chars_of_string(&rule.ref_path);
    let mut i: usize = 0;
    while i < v.len()
        invariant
            i <= v.len(),
            v@ == rule.ref_path@,
            rule.name@.len() == 0,
            first_slash_from(v@, 0) == first_slash_from(v@, i as int),
        decreases v.len() - i,
    {
        if v[i] == '/' {
            assert(v@.subrange(i + 1, v@.len() as int) =~= v@.skip(i + 1));
            return string_of(&crate::text::slice_of(&v, i + 1, v.len()));
        }
        i = i + 1;
    }
    rule.ref_path.clone()
}

// ----- overrides -------------------------------------------------------------

/// What the references on the way to a rule override.
pub struct Overrides {
    pub priority: Option<u8>,
    pub properties: Vec<(String, String)>,
    pub excludes: Vec<String>,
    pub message: String,
}

/// Overrides as plain values.
pub struct OverridesView {
    pub priority: Option<u8>,
    pub properties: Seq<(Seq<char>, Seq<char>)>,
    pub excludes: Seq<Seq<char>>,
    pub message: Seq<char>,
}

impl View for Overrides {
    type V = OverridesView;

    open spec fn view(&self) -> OverridesView {
        OverridesView {
            priority: self.priority,
            properties: prop_views(self.properties@),
            excludes: texts(self.excludes@),
            message: self.message@,
        }
    }
}

/// `ps` with the first `k` of `extra` added where their names are not set.
pub open spec fn props_added(ps: Seq<(Seq<char>, Seq<char>)>, extra: Seq<(Seq<char>, Seq<char>)>, k: int) -> Seq<(Seq<char>, Seq<char>)>
    decreases k,
{
    if k <= 0 || k > extra.len() {
        ps
    } else {
        let p = props_added(ps, extra, k - 1);
        if prop_index(p, extra[k - 1].0, 0) is Some {
            p
        } else {
            p.push(extra[k - 1])
        }
    }
}

/// The overrides inside a reference to one named rule: the reference's
/// properties where not already set, its exclusions in place of the
/// current ones, its message where none is set, its priority if it has one.
pub open spec fn named_overrides(o: OverridesView, r: RuleDoc) -> OverridesView {
    OverridesView {
        priority: match r.priority {
            Some(p) => Some(p),
            None => o.priority,
        },
        properties: props_added(o.properties, r.properties, r.properties.len() as int),
        excludes: r.excludes,
        message: if o.message.len() == 0 && r.message.len() > 0 {
            r.message
        } else {
            o.message
        },
    }
}

/// The overrides inside a reference to a whole ruleset: its properties and
/// message in place of the current ones, its exclusions added, its
/// priority if it has one.
pub open spec fn full_overrides(o: OverridesView, r: RuleDoc) -> OverridesView {
    OverridesView {
        priority: match r.priority {
            Some(p) => Some(p),
            None => o.priority,
        },
        properties: r.properties,
        excludes: o.excludes + r.excludes,
        message: r.message,
    }
}

fn copy_props(ps: &Vec<(String, String)>) -> (r: Vec<(String, String)>)
    ensures
        r@ == ps@,
{
    let mut out: Vec<(String, String)> = Vec::new();
    let mut i: usize = 0;
    while i < ps.len()
        invariant
            i <= ps.len(),
            out@ == ps@.take(i as int),
        decreases ps.len() - i,
    {
        let ghost before = out@;
        out.push((ps[i].0.clone(), ps[i].1.clone()));
        assert(out@ =~= ps@.take(i + 1)) by {
            assert(ps@.take(i + 1) =~= ps@.take(i as int).push(ps@[i as int]));
            assert(out@[i as int].0 == ps@[i as int].0);
            assert(out@[i as int].1 == ps@[i as int].1);
        }
        i = i + 1;
    }
    assert(ps@.take(ps.len() as int) =~= ps@);
    out
}

fn copy_names(ns: &Vec<String>) -> (r: Vec<String>)
    ensures
        texts(r@) == texts(ns@),
{
    let mut out: Vec<String> = Vec::new();
    let mut i: usize = 0;
    while i < ns.len()
        invariant
            i <= ns.len(),
            texts(out@) == texts(ns@).take(i as int),
        decreases ns.len() - i,
    {
        let ghost before = texts(out@);
        out.push(ns[i].clone());
        assert(texts(out@) =~= before.push(texts(ns@)[i as int]));
        assert(texts(ns@).take(i + 1) =~= texts(ns@).take(i as int).push(texts(ns@)[i as int]));
        i = i + 1;
    }
    assert(texts(ns@).take(ns.len() as int) =~= texts(ns@));
    out
}

proof fn lemma_prop_index_exists(ps: Seq<(Seq<char>, Seq<char>)>, name: Seq<char>, k: int)
    requires
        0 <= k,
    ensures
        (prop_index(ps, name, k) is Some) == (exists|j: int| k <= j < ps.len() && #[trigger] ps[j].0 == name),
        prop_index(ps, name, k) matches Some(i) ==> k <= i < ps.len() && ps[i].0 == name,
    decreases ps.len() - k,
{
    if k < ps.len() {
        lemma_prop_index_exists(ps, name, k + 1);
        if ps[k].0 != name {
            assert forall|j: int| k <= j < ps.len() && #[trigger] ps[j].0 == name implies k + 1 <= j by {}
        }
    }
}

/// The overrides inside a reference to one named rule: the reference's
/// properties where not already set, its exclusions in place of the
/// current ones, its message where none is set, its priority if it has one.
fn push_named(o: &Overrides, rule: &XmlRule) -> (r: Overrides)
    ensures
        r@ == named_overrides(o@, rule@),
{
    let mut properties = copy_props(&o.properties);
    let ghost extra = prop_views(rule.properties@);
    let mut i: usize = 0;
    while i < rule.properties.len()
        invariant
            i <= rule.properties.len(),
            extra == prop_views(rule.properties@),
            prop_views(properties@) == props_added(prop_views(o.properties@), extra, i as int),
        decreases rule.properties.len() - i,
    {
        let name = &rule.properties[i].0;
        let mut present = false;
        let n = chars_of_string(name);
        let ghost cur = prop_views(properties@);
        let mut k: usize = 0;
        while k < properties.len()
            invariant
                k <= properties.len(),
                cur == prop_views(properties@),
                n@ == name@,
                present == (exists|j: int| 0 <= j < k && #[trigger] cur[j].0 == n@),
            decreases properties.len() - k,
        {
            let pk = chars_of_string(&properties[k].0);
            if crate::text::chars_eq(&pk, &n) {
                present = true;
                assert(cur[k as int].0 == n@);
            }
            proof {
                if !present {
                    assert forall|j: int| 0 <= j < k + 1 implies #[trigger] cur[j].0 != n@ by {
                        if j < k {
                            if cur[j].0 == n@ {
                                assert(exists|j2: int| 0 <= j2 < k && #[trigger] cur[j2].0 == n@);
                            }
                        }
                    }
                }
            }
            k = k + 1;
        }
        proof {
            lemma_prop_index_exists(cur, n@, 0);
            assert(extra[i as int] == (rule.properties@[i as int].0@, rule.properties@[i as int].1@));
        }
        if !present {
            let ghost before = properties@;
            properties.push((name.clone(), rule.properties[i].1.clone()));
            assert(prop_views(properties@) =~= prop_views(before).push(extra[i as int]));
        }
        i = i + 1;
    }
    let message = if attribute_is_empty(&o.message) && !attribute_is_empty(&rule.message) {
        rule.message.clone()
    } else {
        o.message.clone()
    };
    Overrides {
        priority: match rule.priority {
            Some(p) => Some(p),
            None => o.priority,
        },
        properties,
        excludes: copy_names(&rule.excludes),
        message,
    }
}

/// The overrides inside a reference to a whole ruleset: its properties and
/// message in place of the current ones, its exclusions added, its
/// priority if it has one.
fn push_full(o: &Overrides, rule: &XmlRule) -> (r: Overrides)
    ensures
        r@ == full_overrides(o@, rule@),
{
    let mut excludes = copy_names(&o.excludes);
    let mut i: usize = 0;
    while i < rule.excludes.len()
        invariant
            i <= rule.excludes.len(),
            texts(excludes@) == texts(o.excludes@) + texts(rule.excludes@).take(i as int),
        decreases rule.excludes.len() - i,
    {
        let ghost before = texts(excludes@);
        excludes.push(rule.excludes[i].clone());
        assert(texts(excludes@) =~= before.push(rule.excludes@[i as int]@));
        assert(texts(rule.excludes@).take(i + 1) =~= texts(rule.excludes@).take(i as int).push(rule.excludes@[i as int]@));
        i = i + 1;
    }
    assert(texts(rule.excludes@).take(rule.excludes.len() as int) =~= texts(rule.excludes@));
    let properties = copy_props(&rule.properties);
    Overrides {
        priority: match rule.priority {
            Some(p) => Some(p),
            None => o.priority,
        },
        properties,
        excludes,
        message: rule.message.clone(),
    }
}

// ----- building rules ------------------------------------------------------------

/// The priority of a rule: the override's, else its own, else 3.
pub open spec fn effective_priority(over: Option<u8>, own: Option<u8>) -> u8 {
    match over {
        Some(p) => p,
        None => match own {
            Some(p) => p,
            None => 3,
        },
    }
}

/// Whether a rule of priority `p` is loaded: a priority is 1 (highest)
/// through 5, and the bounds keep it (0 disables a bound).
pub open spec fn priority_kept(p: u8, opts: &LoadOptions) -> bool {
    &&& 1 <= p <= 5
    &&& !(opts.min_priority > 0 && p > opts.min_priority)
    &&& !(opts.max_priority > 0 && p < opts.max_priority)
}

/// What building a rule gave.
pub enum BuildRuleResult {
    Loaded(LoadedRule),
    Filtered,
    Unsupported,
}

/// `ps` with the first `k` of `extra` set in order.
pub open spec fn props_set_all(ps: Seq<(Seq<char>, Seq<char>)>, extra: Seq<(Seq<char>, Seq<char>)>, k: int) -> Seq<(Seq<char>, Seq<char>)>
    decreases k,
{
    if k <= 0 || k > extra.len() {
        ps
    } else {
        let p = props_set_all(ps, extra, k - 1);
        prop_set(p, extra[k - 1].0, extra[k - 1].1)
    }
}

/// The rule that entry `def` of ruleset `set_name` loads as, under the
/// overrides when there are any: none when its priority is filtered out or
/// its class is unknown.
pub open spec fn built_rule(set_name: Seq<char>, def: RuleDoc, o: Option<OverridesView>, opts: LoadOptions) -> Option<RuleView> {
    let over = match o {
        Some(v) => v.priority,
        None => None,
    };
    let priority = effective_priority(over, def.priority);
    if !priority_kept(priority, &opts) {
        None
    } else {
        match kind_of_class(def.class) {
            None => None,
            Some(kind) => Some(RuleView {
                name: def.name,
                ruleset_name: set_name,
                priority,
                properties: match o {
                    Some(v) => props_set_all(def.properties, v.properties, v.properties.len() as int),
                    None => def.properties,
                },
                kind,
                message: match o {
                    Some(v) => if v.message.len() > 0 {
                        v.message
                    } else {
                        def.message
                    },
                    None => def.message,
                },
            }),
        }
    }
}

/// Builds the rule `def` of ruleset `set_name`, under the overrides when
/// there are any.
pub fn build_rule(
    set_name: &String,
    def: &XmlRule,
    overrides: Option<&Overrides>,
    opts: &LoadOptions,
    warnings: &mut Vec<String>,
) -> (r: BuildRuleResult)
    ensures
        match r {
            BuildRuleResult::Loaded(rule) => built_rule(set_name@, def@, match overrides {
                Some(o) => Some(o@),
                None => None,
            }, *opts) == Some(rule@),
            BuildRuleResult::Filtered => !priority_kept(
                effective_priority(
                    match overrides {
                        Some(o) => o.priority,
                        None => None,
                    },
                    def.priority,
                ),
                opts,
            ),
            BuildRuleResult::Unsupported => kind_of_class(def.class@) is None && priority_kept(
                effective_priority(
                    match overrides {
                        Some(o) => o.priority,
                        None => None,
                    },
                    def.priority,
                ),
                opts,
            ),
        },
        r is Loaded == (built_rule(set_name@, def@, match overrides {
            Some(o) => Some(o@),
            None => None,
        }, *opts) is Some),
{
    let over = match overrides {
        Some(o) => o.priority,
        None => None,
    };
    let priority: u8 = match over {
        Some(p) => p,
        None => match def.priority {
            Some(p) => p,
            None => 3,
        },
    };
    if priority < 1 || priority > 5 {
        return BuildRuleResult::Filtered;
    }
    if opts.min_priority > 0 && priority > opts.min_priority {
        return BuildRuleResult::Filtered;
    }
    if opts.max_priority > 0 && priority < opts.max_priority {
        return BuildRuleResult::Filtered;
    }
    let mut properties = copy_props(&def.properties);
    match overrides {
        Some(o) => {
            let ghost extra = prop_views(o.properties@);
            let mut i: usize = 0;
            while i < o.properties.len()
                invariant
                    i <= o.properties.len(),
                    extra == prop_views(o.properties@),
                    prop_views(properties@) == props_set_all(prop_views(def.properties@), extra, i as int),
                decreases o.properties.len() - i,
            {
                set_property(&mut properties, o.properties[i].0.clone(), o.properties[i].1.clone());
                i = i + 1;
            }
        },
        None => {},
    }
    let kind = match resolve_kind(&def.class) {
        Some(k) => k,
        None => {
            let mut m = chars_of("Skipping unimplemented rule ");
            push_all(&mut m, &chars_of_string(&def.name));
            push_str(&mut m, " (");
            push_all(&mut m, &chars_of_string(&def.class));
            push_str(&mut m, ")");
            warnings.push(string_of(&m));
            return BuildRuleResult::Unsupported;
        },
    };
    let message = match overrides {
        Some(o) => if !attribute_is_empty(&o.message) {
            o.message.clone()
        } else {
            def.message.clone()
        },
        None => def.message.clone(),
    };
    BuildRuleResult::Loaded(LoadedRule {
        name: def.name.clone(),
        ruleset_name: set_name.clone(),
        priority,
        properties,
        kind,
        message,
    })
}

// ----- expansion -----------------------------------------------------------

/// What a load has gathered so far.
pub struct LoadState {
    pub rules: Vec<LoadedRule>,
    pub warnings: Vec<String>,
    /// The expansions under way: ruleset id and rule name (empty for a
    /// whole ruleset).
    pub active: Vec<(String, String)>,
}

/// Whether `names` holds `name`.
fn has_name(names: &Vec<LoadedRule>, name: &String) -> (b: bool)
    ensures
        b == exists|k: int| 0 <= k < names@.len() && #[trigger] names@[k].name@ == name@,
{
    let n = chars_of_string(name);
    let mut i: usize = 0;
    while i < names.len()
        invariant
            i <= names.len(),
            n@ == name@,
            forall|k: int| 0 <= k < i ==> #[trigger] names@[k].name@ != name@,
        decreases names.len() - i,
    {
        let m = chars_of_string(&names[i].name);
        if crate::text::chars_eq(&m, &n) {
            return true;
        }
        i = i + 1;
    }
    false
}

/// Whether the rule names of `rules` are all different.
pub open spec fn distinct_names(rules: Seq<LoadedRule>) -> bool {
    forall|a: int, b: int| 0 <= a < b < rules.len() ==> #[trigger] rules[a].name@ != #[trigger] rules[b].name@
}

/// Whether every loaded rule respects the priority bounds.
pub open spec fn within_bounds(rules: Seq<LoadedRule>, opts: &LoadOptions) -> bool {
    forall|k: int| 0 <= k < rules.len() ==> priority_kept(#[trigger] rules[k].priority, opts)
}

pub open spec fn state_ok(st: &LoadState, opts: &LoadOptions) -> bool {
    distinct_names(st.rules@) && within_bounds(st.rules@, opts)
}

/// Whether a rule named `name` is among `rules`.
pub open spec fn has_rule_named(rules: Seq<RuleView>, name: Seq<char>) -> bool {
    exists|k: int| 0 <= k < rules.len() && #[trigger] rules[k].name == name
}

/// `rules` once entry `def` of ruleset `set_name` is loaded: unchanged when
/// a rule of its name is loaded already or it builds to nothing.
pub open spec fn emitted(rules: Seq<RuleView>, set_name: Seq<char>, def: RuleDoc, o: Option<OverridesView>, opts: LoadOptions) -> Seq<RuleView> {
    if has_rule_named(rules, def.name) {
        rules
    } else {
        match built_rule(set_name, def, o, opts) {
            Some(r) => rules.push(r),
            None => rules,
        }
    }
}

/// The position of the expansion of `(id, rule_name)` under way, from `k`
/// on.
pub open spec fn active_from(active: Seq<(Seq<char>, Seq<char>)>, id: Seq<char>, rule_name: Seq<char>, k: int) -> Option<int>
    decreases active.len() - k,
{
    if k < 0 || k >= active.len() {
        None
    } else if active[k].0 == id && active[k].1 == rule_name {
        Some(k)
    } else {
        active_from(active, id, rule_name, k + 1)
    }
}

/// The ids of the expansions from `start` to `k`, each followed by ` -> `.
pub open spec fn chain_text(active: Seq<(Seq<char>, Seq<char>)>, start: int, k: int) -> Seq<char>
    decreases k - start,
{
    if k <= start {
        Seq::empty()
    } else {
        chain_text(active, start, k - 1) + active[k - 1].0 + " -> "@
    }
}

/// `ruleset reference cycle: a -> b -> a`.
pub open spec fn cycle_text(active: Seq<(Seq<char>, Seq<char>)>, start: int, id: Seq<char>) -> Seq<char> {
    "ruleset reference cycle: "@ + chain_text(active, start, active.len() as int) + id
}

/// The position of the first entry of `entries` going by `name`, from `k`
/// on.
pub open spec fn entry_from(entries: Seq<RuleDoc>, name: Seq<char>, k: int) -> Option<int>
    decreases entries.len() - k,
{
    if k < 0 || k >= entries.len() {
        None
    } else if entry_name(entries[k]) == name {
        Some(k)
    } else {
        entry_from(entries, name, k + 1)
    }
}

/// The rules loaded once ruleset `src` (its entry `rule_name` when that is
/// not empty) is expanded after `rules`, `active` holding the expansions
/// under way: an expansion under way again is a cycle; `fuel` bounds the
/// depth of references.
pub open spec fn expanded(
    catalog: Seq<SourceFacts>,
    opts: LoadOptions,
    rules: Seq<RuleView>,
    active: Seq<(Seq<char>, Seq<char>)>,
    src: SourceView,
    source_name: Seq<char>,
    rule_name: Seq<char>,
    o: OverridesView,
    fuel: nat,
) -> Result<Seq<RuleView>, LoadErrorView>
    decreases fuel, 3nat, 0nat,
{
    match active_from(active, src.id, rule_name, 0) {
        Some(i) => Err(LoadErrorView::Failed(cycle_text(active, i, src.id))),
        None => if fuel == 0 {
            Err(LoadErrorView::Failed(cycle_text(active, 0, src.id)))
        } else {
            let inner = active.push((src.id, rule_name));
            if rule_name.len() == 0 {
                entries_expanded(catalog, opts, rules, inner, src, source_name, o, fuel, src.rules.len())
            } else {
                named_expanded(catalog, opts, rules, inner, src, source_name, rule_name, o, fuel)
            }
        },
    }
}

/// The rules loaded once the first `k` entries of a whole ruleset are
/// read.
pub open spec fn entries_expanded(
    catalog: Seq<SourceFacts>,
    opts: LoadOptions,
    rules: Seq<RuleView>,
    active: Seq<(Seq<char>, Seq<char>)>,
    src: SourceView,
    source_name: Seq<char>,
    o: OverridesView,
    fuel: nat,
    k: nat,
) -> Result<Seq<RuleView>, LoadErrorView>
    decreases fuel, 1nat, k,
{
    if k == 0 || k > src.rules.len() {
        Ok(rules)
    } else {
        match entries_expanded(catalog, opts, rules, active, src, source_name, o, fuel, (k - 1) as nat) {
            Err(e) => Err(e),
            Ok(rs) => entry_expanded(catalog, opts, rs, active, src.rules[k - 1], source_name, o, fuel),
        }
    }
}

/// The rules loaded once entry `r` of a whole ruleset is read: skipped
/// when excluded, followed when a reference, loaded when a rule.
pub open spec fn entry_expanded(
    catalog: Seq<SourceFacts>,
    opts: LoadOptions,
    rules: Seq<RuleView>,
    active: Seq<(Seq<char>, Seq<char>)>,
    r: RuleDoc,
    source_name: Seq<char>,
    o: OverridesView,
    fuel: nat,
) -> Result<Seq<RuleView>, LoadErrorView>
    decreases fuel, 1nat, 0nat,
{
    let name = entry_name(r);
    if name.len() > 0 && o.excludes.contains(name) {
        Ok(rules)
    } else if r.ref_path.len() > 0 {
        ref_expanded(catalog, opts, rules, active, r, false, o, fuel)
    } else if r.class.len() > 0 {
        Ok(emitted(rules, source_name, r, None, opts))
    } else {
        Ok(rules)
    }
}

/// The rules loaded once the entry of `src` going by `rule_name` is read:
/// followed when a reference, loaded under the overrides when a rule.
pub open spec fn named_expanded(
    catalog: Seq<SourceFacts>,
    opts: LoadOptions,
    rules: Seq<RuleView>,
    active: Seq<(Seq<char>, Seq<char>)>,
    src: SourceView,
    source_name: Seq<char>,
    rule_name: Seq<char>,
    o: OverridesView,
    fuel: nat,
) -> Result<Seq<RuleView>, LoadErrorView>
    decreases fuel, 1nat, 0nat,
{
    match entry_from(src.rules, rule_name, 0) {
        None => Ok(rules),
        Some(j) => if src.rules[j].ref_path.len() > 0 {
            ref_expanded(catalog, opts, rules, active, src.rules[j], true, o, fuel)
        } else {
            Ok(emitted(rules, source_name, src.rules[j], Some(o), opts))
        },
    }
}

/// The rules loaded once reference `r` is followed: into one rule when
/// `named`, else into a whole ruleset; a reference to nothing that exists
/// is passed over.
pub open spec fn ref_expanded(
    catalog: Seq<SourceFacts>,
    opts: LoadOptions,
    rules: Seq<RuleView>,
    active: Seq<(Seq<char>, Seq<char>)>,
    r: RuleDoc,
    named: bool,
    o: OverridesView,
    fuel: nat,
) -> Result<Seq<RuleView>, LoadErrorView>
    decreases fuel, 0nat, 0nat,
{
    if fuel == 0 {
        Ok(rules)
    } else {
        match split_ref_spec(catalog, r.ref_path) {
            Err(e) => Err(e),
            Ok(parts) => match source_spec(catalog, parts.0) {
                Err(LoadErrorView::Need(n)) => Err(LoadErrorView::Need(n)),
                Err(LoadErrorView::Failed(m)) => match resolvable(catalog, parts.0) {
                    Ok(true) => Err(LoadErrorView::Failed(m)),
                    Ok(false) => Ok(rules),
                    Err(e) => Err(e),
                },
                Ok(t) => expanded(
                    catalog,
                    opts,
                    rules,
                    active,
                    t,
                    set_name_spec(t),
                    parts.1,
                    if named {
                        named_overrides(o, r)
                    } else {
                        full_overrides(o, r)
                    },
                    (fuel - 1) as nat,
                ),
            },
        }
    }
}

proof fn lemma_entries_error_stays(
    catalog: Seq<SourceFacts>,
    opts: LoadOptions,
    rules: Seq<RuleView>,
    active: Seq<(Seq<char>, Seq<char>)>,
    src: SourceView,
    source_name: Seq<char>,
    o: OverridesView,
    fuel: nat,
    k: nat,
    m: nat,
)
    requires
        0 < k <= m <= src.rules.len(),
        entries_expanded(catalog, opts, rules, active, src, source_name, o, fuel, k) is Err,
    ensures
        entries_expanded(catalog, opts, rules, active, src, source_name, o, fuel, m)
            == entries_expanded(catalog, opts, rules, active, src, source_name, o, fuel, k),
    decreases m - k,
{
    if k < m {
        lemma_entries_error_stays(catalog, opts, rules, active, src, source_name, o, fuel, k, (m - 1) as nat);
    }
}

/// Loads rule `def` of ruleset `set_name` unless a rule of that name is
/// loaded already.
fn emit_rule(st: &mut LoadState, set_name: &String, def: &XmlRule, overrides: Option<&Overrides>, opts: &LoadOptions)
    requires
        state_ok(old(st), opts),
    ensures
        state_ok(final(st), opts),
        final(st).active@ == old(st).active@,
        rule_views(final(st).rules@) == emitted(rule_views(old(st).rules@), set_name@, def@, match overrides {
            Some(o) => Some(o@),
            None => None,
        }, *opts),
{
    let ghost o = match overrides {
        Some(o) => Some(o@),
        None => None::<OverridesView>,
    };
    if has_name(&st.rules, &def.name) {
        proof {
            let k = choose|k: int| 0 <= k < st.rules@.len() && #[trigger] st.rules@[k].name@ == def.name@;
            assert(rule_views(st.rules@)[k].name == def.name@);
        }
        return;
    }
    assert(!has_rule_named(rule_views(st.rules@), def.name@)) by {
        if has_rule_named(rule_views(st.rules@), def.name@) {
            let k = choose|k: int| 0 <= k < rule_views(st.rules@).len() && #[trigger] rule_views(st.rules@)[k].name == def.name@;
            assert(st.rules@[k].name@ == def.name@);
        }
    }
    match build_rule(set_name, def, overrides, opts, &mut st.warnings) {
        BuildRuleResult::Loaded(rule) => {
            let ghost before = st.rules@;
            st.rules.push(rule);
            assert(rule_views(st.rules@) =~= rule_views(before).push(rule@));
            assert(distinct_names(st.rules@)) by {
                assert forall|a: int, b: int| 0 <= a < b < st.rules@.len() implies #[trigger] st.rules@[a].name@ != #[trigger] st.rules@[b].name@ by {
                    if b == before.len() {
                        assert(before[a].name@ != def.name@);
                    } else {
                        assert(before[a].name@ != before[b].name@);
                    }
                }
            }
            assert(within_bounds(st.rules@, opts)) by {
                assert forall|k: int| 0 <= k < st.rules@.len() implies priority_kept(#[trigger] st.rules@[k].priority, opts) by {
                    if k < before.len() {
                        assert(priority_kept(before[k].priority, opts));
                    }
                }
            }
        },
        _ => {},
    }
}

fn text_in(list: &Vec<String>, name: &String) -> (b: bool)
    ensures
        b == texts(list@).contains(name@),
{
    crate::analyze::helpers::listed(list, name)
}

/// `ruleset reference cycle: a -> b -> a`.
fn cycle_message(active: &Vec<(String, String)>, start: usize, id: &String) -> (r: String)
    requires
        start <= active.len(),
    ensures
        r@ == cycle_text(prop_views(active@), start as int, id@),
{
    let ghost av = prop_views(active@);
    let mut m = chars_of("ruleset reference cycle: ");
    let mut k = start;
    while k < active.len()
        invariant
            start <= k <= active.len(),
            av == prop_views(active@),
            m@ == "ruleset reference cycle: "@ + chain_text(av, start as int, k as int),
        decreases active.len() - k,
    {
        push_all(&mut m, &chars_of_string(&active[k].0));
        push_str(&mut m, " -> ");
        proof {
            reveal_strlit(" -> ");
        }
        assert(m@ =~= "ruleset reference cycle: "@ + chain_text(av, start as int, k + 1));
        k = k + 1;
    }
    push_all(&mut m, &chars_of_string(id));
    string_of(&m)
}

/// The name a source goes by: its declared name, or its display name.
fn set_name_of(src: &Source) -> (r: String)
    ensures
        r@ == set_name_spec(src@),
{
    if attribute_is_empty(&src.ruleset.name) {
        src.display_name.clone()
    } else {
        src.ruleset.name.clone()
    }
}

/// Expands ruleset `src` (a rule of it when `rule_name` is not empty).
fn expand_source(
    st: &mut LoadState,
    catalog: &Vec<SourceFacts>,
    opts: &LoadOptions,
    src: &Source,
    source_name: &String,
    rule_name: &String,
    o: &Overrides,
    fuel: usize,
) -> (r: Result<(), LoadError>)
    requires
        state_ok(old(st), opts),
    ensures
        state_ok(final(st), opts),
        final(st).active@ == old(st).active@,
        match expanded(catalog@, *opts, rule_views(old(st).rules@), prop_views(old(st).active@), src@, source_name@, rule_name@, o@, fuel as nat) {
            Ok(rs) => r is Ok && rule_views(final(st).rules@) == rs,
            Err(e) => r matches Err(x) && x@ == e,
        },
    decreases fuel, 3int,
{
    let ghost av = prop_views(st.active@);
    let id = chars_of_string(&src.id);
    let rn = chars_of_string(rule_name);
    let mut i: usize = 0;
    while i < st.active.len()
        invariant
            i <= st.active.len(),
            state_ok(st, opts),
            st.active@ == old(st).active@,
            st.rules@ == old(st).rules@,
            av == prop_views(st.active@),
            id@ == src.id@,
            rn@ == rule_name@,
            active_from(av, src.id@, rule_name@, 0) == active_from(av, src.id@, rule_name@, i as int),
        decreases st.active.len() - i,
    {
        let a0 = chars_of_string(&st.active[i].0);
        let a1 = chars_of_string(&st.active[i].1);
        if crate::text::chars_eq(&a0, &id) && crate::text::chars_eq(&a1, &rn) {
            return Err(LoadError::Failed(cycle_message(&st.active, i, &src.id)));
        }
        i = i + 1;
    }
    if fuel == 0 {
        return Err(LoadError::Failed(cycle_message(&st.active, 0, &src.id)));
    }
    st.active.push((src.id.clone(), rule_name.clone()));
    assert(prop_views(st.active@) =~= av.push((src.id@, rule_name@)));
    let result = if attribute_is_empty(rule_name) {
        add_ruleset_rules(st, catalog, opts, src, source_name, o, fuel)
    } else {
        add_named_rule(st, catalog, opts, src, source_name, rule_name, o, fuel)
    };
    st.active.pop();
    assert(st.active@ =~= old(st).active@);
    result
}

/// Follows a `ref` entry: into one rule (`named`) or a whole ruleset.
fn add_ref(
    st: &mut LoadState,
    catalog: &Vec<SourceFacts>,
    opts: &LoadOptions,
    rule: &XmlRule,
    named: bool,
    o: &Overrides,
    fuel: usize,
) -> (r: Result<(), LoadError>)
    requires
        state_ok(old(st), opts),
        fuel > 0,
    ensures
        state_ok(final(st), opts),
        final(st).active@ == old(st).active@,
        match ref_expanded(catalog@, *opts, rule_views(old(st).rules@), prop_views(old(st).active@), rule@, named, o@, fuel as nat) {
            Ok(rs) => r is Ok && rule_views(final(st).rules@) == rs,
            Err(e) => r matches Err(x) && x@ == e,
        },
    decreases fuel, 0int,
{
    let (base, rule_name) = match split_ref(catalog, rule.ref_path.as_str()) {
        Ok(p) => p,
        Err(e) => return Err(e),
    };
    let target = match source(catalog, base.as_str()) {
        Ok(t) => t,
        Err(LoadError::Need(n)) => return Err(LoadError::Need(n)),
        Err(LoadError::Failed(e)) => {
            match is_resolvable(catalog, base.as_str()) {
                Ok(true) => return Err(LoadError::Failed(e)),
                Ok(false) => {
                    let mut m = chars_of("Cannot resolve ref: ");
                    push_all(&mut m, &chars_of_string(&rule.ref_path));
                    st.warnings.push(string_of(&m));
                    return Ok(());
                },
                Err(n) => return Err(n),
            }
        },
    };
    let source_name = set_name_of(&target);
    let inner = if named {
        push_named(o, rule)
    } else {
        push_full(o, rule)
    };
    expand_source(st, catalog, opts, &target, &source_name, &rule_name, &inner, fuel - 1)
}

/// The entries of a whole ruleset: excluded names are skipped, references
/// followed, rules loaded.
fn add_ruleset_rules(
    st: &mut LoadState,
    catalog: &Vec<SourceFacts>,
    opts: &LoadOptions,
    src: &Source,
    source_name: &String,
    o: &Overrides,
    fuel: usize,
) -> (r: Result<(), LoadError>)
    requires
        state_ok(old(st), opts),
        fuel > 0,
    ensures
        state_ok(final(st), opts),
        final(st).active@ == old(st).active@,
        match entries_expanded(catalog@, *opts, rule_views(old(st).rules@), prop_views(old(st).active@), src@, source_name@, o@, fuel as nat, src@.rules.len()) {
            Ok(rs) => r is Ok && rule_views(final(st).rules@) == rs,
            Err(e) => r matches Err(x) && x@ == e,
        },
    decreases fuel, 1int,
{
    let ghost start = rule_views(st.rules@);
    let ghost av = prop_views(st.active@);
    let ruleset = &src.ruleset;
    let mut i: usize = 0;
    while i < ruleset.rules.len()
        invariant
            i <= ruleset.rules.len(),
            ruleset == &src.ruleset,
            state_ok(st, opts),
            fuel > 0,
            st.active@ == old(st).active@,
            av == prop_views(old(st).active@),
            start == rule_views(old(st).rules@),
            entries_expanded(catalog@, *opts, start, av, src@, source_name@, o@, fuel as nat, i as nat) == Ok::<Seq<RuleView>, LoadErrorView>(rule_views(st.rules@)),
        decreases ruleset.rules.len() - i,
    {
        let rule = &ruleset.rules[i];
        assert(src@.rules[i as int] == rule@);
        let ghost before = rule_views(st.rules@);
        assert(entries_expanded(catalog@, *opts, start, av, src@, source_name@, o@, fuel as nat, (i + 1) as nat)
            == entry_expanded(catalog@, *opts, before, av, rule@, source_name@, o@, fuel as nat));
        let name = rule_name_or_ref(rule);
        if !attribute_is_empty(&name) && text_in(&o.excludes, &name) {
            i = i + 1;
            continue;
        }
        if !attribute_is_empty(&rule.ref_path) {
            match add_ref(st, catalog, opts, rule, false, o, fuel) {
                Ok(()) => {},
                Err(e) => {
                    proof {
                        lemma_entries_error_stays(catalog@, *opts, start, av, src@, source_name@, o@, fuel as nat, (i + 1) as nat, src@.rules.len());
                    }
                    return Err(e);
                },
            }
        } else if !attribute_is_empty(&rule.class) {
            emit_rule(st, source_name, rule, None, opts);
        }
        i = i + 1;
    }
    Ok(())
}

/// One named entry of a ruleset: a reference is followed, a rule loaded
/// under the overrides.
fn add_named_rule(
    st: &mut LoadState,
    catalog: &Vec<SourceFacts>,
    opts: &LoadOptions,
    src: &Source,
    source_name: &String,
    rule_name: &String,
    o: &Overrides,
    fuel: usize,
) -> (r: Result<(), LoadError>)
    requires
        state_ok(old(st), opts),
        fuel > 0,
    ensures
        state_ok(final(st), opts),
        final(st).active@ == old(st).active@,
        match named_expanded(catalog@, *opts, rule_views(old(st).rules@), prop_views(old(st).active@), src@, source_name@, rule_name@, o@, fuel as nat) {
            Ok(rs) => r is Ok && rule_views(final(st).rules@) == rs,
            Err(e) => r matches Err(x) && x@ == e,
        },
    decreases fuel, 1int,
{
    let ruleset = &src.ruleset;
    let wanted = chars_of_string(rule_name);
    let mut i: usize = 0;
    while i < ruleset.rules.len()
        invariant
            i <= ruleset.rules.len(),
            ruleset == &src.ruleset,
            wanted@ == rule_name@,
            state_ok(st, opts),
            fuel > 0,
            st.rules@ == old(st).rules@,
            st.active@ == old(st).active@,
            entry_from(src@.rules, rule_name@, 0) == entry_from(src@.rules, rule_name@, i as int),
        decreases ruleset.rules.len() - i,
    {
        let rule = &ruleset.rules[i];
        assert(src@.rules[i as int] == rule@);
        let name = chars_of_string(&rule_name_or_ref(rule));
        if crate::text::chars_eq(&name, &wanted) {
            if !attribute_is_empty(&rule.ref_path) {
                return add_ref(st, catalog, opts, rule, true, o, fuel);
            }
            emit_rule(st, source_name, rule, Some(o), opts);
            return Ok(());
        }
        i = i + 1;
    }
    Ok(())
}

/// The first of `names` not among the rule names of `rules`.
pub open spec fn first_missing(rules: Seq<LoadedRule>, names: Seq<Seq<char>>) -> Option<Seq<char>>
    decreases names.len(),
{
    if names.len() == 0 {
        None
    } else if !(exists|k: int| 0 <= k < rules.len() && #[trigger] rules[k].name@ == names[0]) {
        Some(names[0])
    } else {
        first_missing(rules, names.drop_first())
    }
}

/// Whether a rule stays after the filters.
pub open spec fn kept_by_filters(r: LoadedRule, only: Seq<Seq<char>>, disable: Seq<Seq<char>>) -> bool {
    (only.len() == 0 || only.contains(r.name@)) && !disable.contains(r.name@)
}

/// The filters as a predicate.
pub open spec fn keep_pred(only: Seq<Seq<char>>, disable: Seq<Seq<char>>) -> spec_fn(LoadedRule) -> bool {
    |r: LoadedRule| kept_by_filters(r, only, disable)
}

/// The rules that stay, in order.
pub open spec fn filtered(rules: Seq<LoadedRule>, only: Seq<Seq<char>>, disable: Seq<Seq<char>>) -> Seq<LoadedRule> {
    rules.filter(keep_pred(only, disable))
}

/// The first missing name of `a + b` is the first of `a`, or else the first of `b`.
proof fn lemma_first_missing_concat(rules: Seq<LoadedRule>, a: Seq<Seq<char>>, b: Seq<Seq<char>>)
    ensures
        first_missing(rules, a + b) == (match first_missing(rules, a) {
            Some(n) => Some(n),
            None => first_missing(rules, b),
        }),
    decreases a.len(),
{
    if a.len() == 0 {
        assert(a + b =~= b);
    } else {
        assert((a + b)[0] == a[0]);
        assert((a + b).drop_first() =~= a.drop_first() + b);
        lemma_first_missing_concat(rules, a.drop_first(), b);
    }
}

/// The position in `names` of the first name that no rule of `rules` has.
fn first_absent(rules: &Vec<LoadedRule>, names: &Vec<String>) -> (r: Option<usize>)
    ensures
        match r {
            Some(k) => k < names@.len() && first_missing(rules@, texts(names@)) == Some(names@[k as int]@),
            None => first_missing(rules@, texts(names@)) == None::<Seq<char>>,
        },
{
    let ghost wanted = texts(names@);
    let mut j: usize = 0;
    assert(wanted.skip(0) =~= wanted);
    while j < names.len()
        invariant
            j <= names.len(),
            wanted == texts(names@),
            wanted.len() == names.len(),
            first_missing(rules@, wanted) == first_missing(rules@, wanted.skip(j as int)),
        decreases names.len() - j,
    {
        assert(wanted.skip(j as int)[0] == names@[j as int]@);
        assert(wanted.skip(j as int).drop_first() =~= wanted.skip(j + 1));
        if !has_name(rules, &names[j]) {
            return Some(j);
        }
        j = j + 1;
    }
    assert(wanted.skip(j as int).len() == 0);
    None
}

/// The message for a name that no loaded rule has.
fn missing_message(name: &String) -> (r: String)
    ensures
        r@ == "rule '"@ + name@ + "' is not present in the loaded rulesets"@,
{
    let mut m = chars_of("rule '");
    push_all(&mut m, &chars_of_string(name));
    push_str(&mut m, "' is not present in the loaded rulesets");
    string_of(&m)
}

/// Applies `--only` and `--disable`: every name they give must be loaded.
pub fn apply_name_filters(rules: Vec<LoadedRule>, only: &Vec<String>, disable: &Vec<String>) -> (r: Result<Vec<LoadedRule>, String>)
    ensures
        match first_missing(rules@, texts(only@) + texts(disable@)) {
            Some(n) => r matches Err(e) && e@ == "rule '"@ + n + "' is not present in the loaded rulesets"@,
            None => r matches Ok(kept) && kept@ == filtered(rules@, texts(only@), texts(disable@)),
        },
{
    proof {
        lemma_first_missing_concat(rules@, texts(only@), texts(disable@));
    }
    match first_absent(&rules, only) {
        Some(k) => return Err(missing_message(&only[k])),
        None => {},
    }
    match first_absent(&rules, disable) {
        Some(k) => return Err(missing_message(&disable[k])),
        None => {},
    }
    let ghost p = keep_pred(texts(only@), texts(disable@));
    let mut kept: Vec<LoadedRule> = Vec::new();
    let mut rest = rules;
    let ghost all = rest@;
    let total = rest.len();
    let mut i: usize = 0;
    assert(all.skip(0) =~= all);
    assert(all.take(0).filter(p) =~= Seq::<LoadedRule>::empty()) by {
        reveal(Seq::filter);
    }
    while rest.len() > 0
        invariant
            i + rest.len() == all.len(),
            all.len() == total,
            rest@ == all.skip(i as int),
            p == keep_pred(texts(only@), texts(disable@)),
            kept@ == all.take(i as int).filter(p),
        decreases rest.len(),
    {
        let ghost prev = rest@;
        let r = rest.remove(0);
        assert(r == all[i as int]);
        assert(rest@ =~= all.skip(i + 1)) by {
            assert forall|k: int| 0 <= k < rest@.len() implies rest@[k] == all.skip(i + 1)[k] by {
                assert(rest@[k] == prev[k + 1]);
            }
        }
        let keep = (only.len() == 0 || text_in(only, &r.name)) && !text_in(disable, &r.name);
        assert(all.take(i + 1) =~= all.take(i as int).push(r));
        proof {
            all.take(i as int).lemma_filter_push(r, p);
        }
        if keep {
            kept.push(r);
        }
        i = i + 1;
    }
    assert(all.take(i as int) =~= all);
    Ok(kept)
}

/// A load: the rules kept, and the warnings met.
pub struct Loaded {
    pub rules: Vec<LoadedRule>,
    pub warnings: Vec<String>,
}

/// How deep references may nest in one load.
pub const MAX_REFERENCE_DEPTH: usize = 100000;

/// No overrides.
pub open spec fn no_overrides() -> OverridesView {
    OverridesView { priority: None, properties: Seq::empty(), excludes: Seq::empty(), message: Seq::empty() }
}

/// The rules the first `k` of `specs` load, in order, each ruleset
/// expanded whole under its own name.
pub open spec fn loaded_rules(catalog: Seq<SourceFacts>, opts: LoadOptions, specs: Seq<Seq<char>>, k: int) -> Result<Seq<RuleView>, LoadErrorView>
    decreases k,
{
    if k <= 0 || k > specs.len() {
        Ok(Seq::empty())
    } else {
        match loaded_rules(catalog, opts, specs, k - 1) {
            Err(e) => Err(e),
            Ok(rs) => match source_spec(catalog, specs[k - 1]) {
                Err(e) => Err(e),
                Ok(src) => expanded(
                    catalog,
                    opts,
                    rs,
                    Seq::empty(),
                    src,
                    set_name_spec(src),
                    Seq::empty(),
                    no_overrides(),
                    MAX_REFERENCE_DEPTH as nat,
                ),
            },
        }
    }
}

/// The first of `names` no rule of `rules` goes by.
pub open spec fn first_missing_view(rules: Seq<RuleView>, names: Seq<Seq<char>>) -> Option<Seq<char>>
    decreases names.len(),
{
    if names.len() == 0 {
        None
    } else if !has_rule_named(rules, names[0]) {
        Some(names[0])
    } else {
        first_missing_view(rules, names.drop_first())
    }
}

/// Whether a rule stays after the filters.
pub open spec fn view_kept(r: RuleView, only: Seq<Seq<char>>, disable: Seq<Seq<char>>) -> bool {
    (only.len() == 0 || only.contains(r.name)) && !disable.contains(r.name)
}

pub open spec fn view_keep_pred(only: Seq<Seq<char>>, disable: Seq<Seq<char>>) -> spec_fn(RuleView) -> bool {
    |r: RuleView| view_kept(r, only, disable)
}

/// The rules that stay after the filters, in order.
pub open spec fn views_filtered(rules: Seq<RuleView>, only: Seq<Seq<char>>, disable: Seq<Seq<char>>) -> Seq<RuleView> {
    rules.filter(view_keep_pred(only, disable))
}

proof fn lemma_loaded_error_stays(catalog: Seq<SourceFacts>, opts: LoadOptions, specs: Seq<Seq<char>>, k: int, m: int)
    requires
        0 < k <= m <= specs.len(),
        loaded_rules(catalog, opts, specs, k) is Err,
    ensures
        loaded_rules(catalog, opts, specs, m) == loaded_rules(catalog, opts, specs, k),
    decreases m - k,
{
    if k < m {
        lemma_loaded_error_stays(catalog, opts, specs, k, m - 1);
    }
}

proof fn lemma_first_missing_views(rules: Seq<LoadedRule>, names: Seq<Seq<char>>)
    ensures
        first_missing(rules, names) == first_missing_view(rule_views(rules), names),
    decreases names.len(),
{
    if names.len() > 0 {
        let vs = rule_views(rules);
        assert((exists|k: int| 0 <= k < rules.len() && #[trigger] rules[k].name@ == names[0]) == has_rule_named(vs, names[0])) by {
            if exists|k: int| 0 <= k < rules.len() && #[trigger] rules[k].name@ == names[0] {
                let k = choose|k: int| 0 <= k < rules.len() && #[trigger] rules[k].name@ == names[0];
                assert(vs[k].name == names[0]);
            }
            if has_rule_named(vs, names[0]) {
                let k = choose|k: int| 0 <= k < vs.len() && #[trigger] vs[k].name == names[0];
                assert(rules[k].name@ == names[0]);
            }
        }
        lemma_first_missing_views(rules, names.drop_first());
    }
}

proof fn lemma_filtered_views(rules: Seq<LoadedRule>, only: Seq<Seq<char>>, disable: Seq<Seq<char>>)
    ensures
        rule_views(filtered(rules, only, disable)) == views_filtered(rule_views(rules), only, disable),
    decreases rules.len(),
{
    reveal(Seq::filter);
    let p = keep_pred(only, disable);
    let q = view_keep_pred(only, disable);
    if rules.len() == 0 {
        assert(rule_views(rules.filter(p)) =~= rule_views(rules).filter(q));
    } else {
        let init = rules.drop_last();
        lemma_filtered_views(init, only, disable);
        assert(rule_views(rules).drop_last() =~= rule_views(init));
        assert(p(rules.last()) == q(rule_views(rules).last()));
        if p(rules.last()) {
            assert(rule_views(rules.filter(p)) =~= rule_views(init.filter(p)).push(rules.last()@));
        } else {
            assert(rule_views(rules.filter(p)) =~= rule_views(init.filter(p)));
        }
    }
}

/// Loads the rulesets `specs` (names or files, in order) and applies the
/// name filters. `catalog` holds what the caller found out about
/// identifiers; `Err(Need(ident))` asks for the facts about one more.
pub fn load_and_filter(
    specs: &Vec<String>,
    only: &Vec<String>,
    disable: &Vec<String>,
    opts: &LoadOptions,
    catalog: &Vec<SourceFacts>,
) -> (r: Result<Loaded, LoadError>)
    ensures
        r matches Ok(l) ==> distinct_names(l.rules@) && within_bounds(l.rules@, opts),
        r matches Ok(l) ==> forall|k: int| 0 <= k < l.rules@.len() ==> kept_by_filters(#[trigger] l.rules@[k], texts(only@), texts(disable@)),
        specs@.len() == 0 ==> (r matches Err(e) && e matches LoadError::Failed(m) && m@ == "no rulesets specified"@),
        r matches Ok(l) ==> forall|k: int| 0 <= k < l.rules@.len() ==> 1 <= #[trigger] l.rules@[k].priority <= 5,
        specs@.len() > 0 ==> match loaded_rules(catalog@, *opts, texts(specs@), specs@.len() as int) {
            Err(e) => r matches Err(x) && x@ == e,
            Ok(rs) => match first_missing_view(rs, texts(only@) + texts(disable@)) {
                Some(n) => r matches Err(x) && x@ == LoadErrorView::Failed(
                    "rule '"@ + n + "' is not present in the loaded rulesets"@,
                ),
                None => r matches Ok(l) && rule_views(l.rules@) == views_filtered(rs, texts(only@), texts(disable@)),
            },
        },
{
    if specs.len() == 0 {
        proof {
            reveal_strlit("no rulesets specified");
        }
        return Err(LoadError::Failed(string_of(&chars_of("no rulesets specified"))));
    }
    let mut st = LoadState { rules: Vec::new(), warnings: Vec::new(), active: Vec::new() };
    let ghost names = texts(specs@);
    assert(rule_views(st.rules@) =~= Seq::<RuleView>::empty());
    let mut i: usize = 0;
    while i < specs.len()
        invariant
            i <= specs.len(),
            names == texts(specs@),
            state_ok(&st, opts),
            st.active@.len() == 0,
            loaded_rules(catalog@, *opts, names, i as int) == Ok::<Seq<RuleView>, LoadErrorView>(rule_views(st.rules@)),
        decreases specs.len() - i,
    {
        let ghost before = rule_views(st.rules@);
        assert(names[i as int] == specs@[i as int]@);
        let src = match source(catalog, specs[i].as_str()) {
            Ok(s) => s,
            Err(e) => {
                proof {
                    lemma_loaded_error_stays(catalog@, *opts, names, i + 1, specs.len() as int);
                }
                return Err(e);
            },
        };
        let set_name = set_name_of(&src);
        let o = Overrides { priority: None, properties: Vec::new(), excludes: Vec::new(), message: String::new() };
        assert(o@ =~= no_overrides()) by {
            assert(prop_views(o.properties@) =~= Seq::<(Seq<char>, Seq<char>)>::empty());
            assert(texts(o.excludes@) =~= Seq::<Seq<char>>::empty());
        }
        let none = String::new();
        assert(prop_views(st.active@) =~= Seq::<(Seq<char>, Seq<char>)>::empty());
        match expand_source(&mut st, catalog, opts, &src, &set_name, &none, &o, MAX_REFERENCE_DEPTH) {
            Ok(()) => {},
            Err(e) => {
                proof {
                    lemma_loaded_error_stays(catalog@, *opts, names, i + 1, specs.len() as int);
                }
                return Err(e);
            },
        }
        i = i + 1;
    }
    let ghost loaded = st.rules@;
    proof {
        lemma_first_missing_views(loaded, texts(only@) + texts(disable@));
        lemma_filtered_views(loaded, texts(only@), texts(disable@));
    }
    match apply_name_filters(st.rules, only, disable) {
        Ok(rules) => {
            proof {
                let p = keep_pred(texts(only@), texts(disable@));
                assert forall|a: int, b: int| 0 <= a < b < rules@.len() implies #[trigger] rules@[a].name@ != #[trigger] rules@[b].name@ by {
                    lemma_filter_order(loaded, p, a, b);
                }
                assert forall|k: int| 0 <= k < rules@.len() implies priority_kept(#[trigger] rules@[k].priority, opts) by {
                    lemma_filter_member(loaded, p, k);
                    let j = choose|j: int| 0 <= j < loaded.len() && loaded[j] == #[trigger] loaded.filter(p)[k];
                    assert(priority_kept(loaded[j].priority, opts));
                }
                assert forall|k: int| 0 <= k < rules@.len() implies kept_by_filters(#[trigger] rules@[k], texts(only@), texts(disable@)) by {
                    loaded.lemma_filter_pred(p, k);
                }
            }
            Ok(Loaded { rules, warnings: st.warnings })
        },
        Err(e) => {
            let r = LoadError::Failed(e);
            proof {
                reveal_strlit("rule '");
                reveal_strlit("' is not present in the loaded rulesets");
            }
            Err(r)
        },
    }
}

/// Every item of a filtered sequence is an item of the sequence it came from.
proof fn lemma_filter_member(s: Seq<LoadedRule>, p: spec_fn(LoadedRule) -> bool, i: int)
    requires
        0 <= i < s.filter(p).len(),
    ensures
        exists|k: int| 0 <= k < s.len() && s[k] == #[trigger] s.filter(p)[i],
    decreases s.len(),
{
    reveal(Seq::filter);
    let init = s.drop_last();
    if p(s.last()) && i == init.filter(p).len() {
        assert(s[s.len() - 1] == s.filter(p)[i]);
    } else {
        assert(s.filter(p)[i] == init.filter(p)[i]);
        lemma_filter_member(init, p, i);
        let k = choose|k: int| 0 <= k < init.len() && init[k] == #[trigger] init.filter(p)[i];
        assert(s[k] == s.filter(p)[i]);
    }
}

/// Filtering keeps the rule names distinct.
proof fn lemma_filter_order(s: Seq<LoadedRule>, p: spec_fn(LoadedRule) -> bool, a: int, b: int)
    requires
        distinct_names(s),
        0 <= a < b < s.filter(p).len(),
    ensures
        s.filter(p)[a].name@ != s.filter(p)[b].name@,
    decreases s.len(),
{
    reveal(Seq::filter);
    let init = s.drop_last();
    assert(distinct_names(init)) by {
        assert forall|x: int, y: int| 0 <= x < y < init.len() implies #[trigger] init[x].name@ != #[trigger] init[y].name@ by {
            assert(s[x].name@ != s[y].name@);
        }
    }
    if p(s.last()) && b == init.filter(p).len() {
        assert(s.filter(p)[a] == init.filter(p)[a]);
        assert(s.filter(p)[b] == s[s.len() - 1]);
        lemma_filter_member(init, p, a);
        let k = choose|k: int| 0 <= k < init.len() && init[k] == #[trigger] init.filter(p)[a];
        assert(s[k] == init[k]);
        assert(s[k].name@ != s[s.len() - 1].name@);
    } else {
        assert(s.filter(p)[a] == init.filter(p)[a]);
        assert(s.filter(p)[b] == init.filter(p)[b]);
        lemma_filter_order(init, p, a, b);
    }
}

} // verus!
