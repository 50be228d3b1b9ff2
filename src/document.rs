//! A generic element tree: what an XML reader hands to the schema mapper.

use vstd::prelude::*;
use vstd::string::*;

verus! {

/// One attribute of an element.
#[derive(Debug)]
pub struct Attr {
    pub key: String,
    pub value: String,
}

/// One element: its tag, its attributes in document order, its child
/// elements in document order, and its text content.
#[derive(Debug)]
pub struct Node {
    pub tag: String,
    pub attrs: Vec<Attr>,
    pub children: Vec<Node>,
    pub text: String,
}

/// The value of the first attribute in `attrs` whose key is `key`.
pub open spec fn attr_in(attrs: Seq<Attr>, key: Seq<char>) -> Option<String>
    decreases attrs.len(),
{
    if attrs.len() == 0 {
        None
    } else if attrs[0].key@ == key {
        Some(attrs[0].value)
    } else {
        attr_in(attrs.drop_first(), key)
    }
}

/// Whether `s` reads exactly as the literal `lit`.
pub fn is_tag(s: &String, lit: &str) -> (r: bool)
    ensures
        r == (s@ == lit@),
{
    let t = String::from_str(lit);
    *s == t
}

impl Node {
    /// The value of the attribute `key`, if the element carries one.
    pub open spec fn attr_spec(&self, key: Seq<char>) -> Option<String> {
        attr_in(self.attrs@, key)
    }

    /// Looks up an attribute; the first one wins where a key repeats.
    pub fn attr(&self, key: &str) -> (r: Option<String>)
        ensures
            r == self.attr_spec(key@),
    {
        let mut i: usize = 0;
        assert(self.attrs@.subrange(0, self.attrs@.len() as int) =~= self.attrs@);
        while i < self.attrs.len()
            invariant
                0 <= i <= self.attrs@.len(),
                attr_in(self.attrs@, key@) == attr_in(self.attrs@.subrange(i as int, self.attrs@.len() as int), key@),
            decreases self.attrs@.len() - i,
        {
            let a = &self.attrs[i];
            let ghost rest = self.attrs@.subrange(i as int, self.attrs@.len() as int);
            assert(rest.drop_first() =~= self.attrs@.subrange(i + 1, self.attrs@.len() as int));
            if is_tag(&a.key, key) {
                return Some(a.value.clone());
            }
            i += 1;
        }
        assert(self.attrs@.subrange(i as int, self.attrs@.len() as int).len() == 0);
        None
    }
}

/// Whether `a` and `b` hold the same element: tag, attributes, text, and
/// children alike, at every depth.
pub open spec fn same_node(a: Node, b: Node) -> bool
    decreases b,
{
    &&& a.tag == b.tag
    &&& a.attrs@ == b.attrs@
    &&& a.text == b.text
    &&& a.children@.len() == b.children@.len()
    &&& forall|i: int|
        0 <= i < b.children@.len() ==> same_node(#[trigger] a.children@[i], b.children@[i])
}

/// A deep copy of an element.
pub fn copy_node(n: &Node) -> (r: Node)
    ensures
        same_node(r, *n),
    decreases n,
{
    let mut attrs: Vec<Attr> = Vec::new();
    let mut i: usize = 0;
    while i < n.attrs.len()
        invariant
            0 <= i <= n.attrs@.len(),
            attrs@ == n.attrs@.subrange(0, i as int),
        decreases n.attrs@.len() - i,
    {
        attrs.push(Attr { key: n.attrs[i].key.clone(), value: n.attrs[i].value.clone() });
        assert(attrs@ =~= n.attrs@.subrange(0, i + 1));
        i += 1;
    }
    assert(attrs@ =~= n.attrs@);
    let mut children: Vec<Node> = Vec::new();
    let mut j: usize = 0;
    while j < n.children.len()
        invariant
            0 <= j <= n.children@.len(),
            children@.len() == j,
            forall|k: int| 0 <= k < j ==> same_node(#[trigger] children@[k], n.children@[k]),
        decreases n.children@.len() - j,
    {
        let c = copy_node(&n.children[j]);
        children.push(c);
        j += 1;
    }
    Node { tag: n.tag.clone(), attrs, children, text: n.text.clone() }
}

} // verus!
