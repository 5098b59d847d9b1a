//! The markup tree that rendering produces.
//!
//! Elements are `elementtree::Element` values. Verus cannot look inside
//! one, so this module gives each element a mathematical model, [`Markup`],
//! and wraps the few operations of `elementtree` that rendering needs in
//! functions whose contracts are stated over that model. Those contracts are
//! taken on trust; everything built on them is proved.

use vstd::prelude::*;
use crate::foundation::{Position, Size};
use crate::text::{decimal, decimal_string};

verus! {

#[verifier::external_type_specification]
#[verifier::external_body]
pub struct ExElement(elementtree::Element);

#[verifier::external_type_specification]
#[verifier::external_body]
pub struct ExElementError(elementtree::Error);

/// What an element holds.
///
/// `attrs` are the attributes without a namespace, by name;
/// `qualified_attrs` are those with one, by namespace and name.
/// `prefixes` maps each namespace prefix registered on the element to its
/// namespace, and `declares_prefixes` says whether the element writes them
/// out as `xmlns` declarations.
#[verifier::ext_equal]
pub struct Markup {
    pub namespace: Option<Seq<char>>,
    pub tag: Seq<char>,
    pub attrs: Map<Seq<char>, Seq<char>>,
    pub qualified_attrs: Map<(Seq<char>, Seq<char>), Seq<char>>,
    pub text: Seq<char>,
    pub tail: Seq<char>,
    pub children: Seq<Markup>,
    pub prefixes: Map<Seq<char>, Seq<char>>,
    pub declares_prefixes: bool,
}

impl Markup {
    /// An element with the given tag, attributes and children, outside any
    /// namespace and without text.
    pub open spec fn element(
        tag: Seq<char>,
        attrs: Map<Seq<char>, Seq<char>>,
        children: Seq<Markup>,
    ) -> Markup {
        Markup {
            namespace: None,
            tag,
            attrs,
            qualified_attrs: Map::empty(),
            text: Seq::empty(),
            tail: Seq::empty(),
            children,
            prefixes: Map::empty(),
            declares_prefixes: false,
        }
    }

    /// An element in the namespace `namespace`, which it declares as the
    /// default namespace of the document.
    pub open spec fn root(
        namespace: Seq<char>,
        tag: Seq<char>,
        attrs: Map<Seq<char>, Seq<char>>,
        children: Seq<Markup>,
    ) -> Markup {
        Markup {
            namespace: Some(namespace),
            tag,
            attrs,
            qualified_attrs: Map::empty(),
            text: Seq::empty(),
            tail: Seq::empty(),
            children,
            prefixes: Map::empty().insert(Seq::empty(), namespace),
            declares_prefixes: true,
        }
    }

    /// The same element with the attribute `name` set to `value`.
    pub open spec fn with_attr(self, name: Seq<char>, value: Seq<char>) -> Markup {
        Markup { attrs: self.attrs.insert(name, value), ..self }
    }

    /// The same element with `child` added after its other children.
    pub open spec fn with_child(self, child: Markup) -> Markup {
        Markup { children: self.children.push(child), ..self }
    }
}

/// The text `prefix` followed by the text `id`.
pub fn tagged(prefix: &str, id: &str) -> (r: String)
    ensures
        r@ == prefix@ + id@,
{
    let mut r = prefix.to_owned();
    r.append(id);
    r
}

/// A reference to the definition `prefix` + `id`: `url(#` + `prefix` +
/// `id` + `)`.
pub open spec fn url_of(prefix: Seq<char>, id: Seq<char>) -> Seq<char> {
    "url(#"@ + prefix + id + ")"@
}

/// Writes the reference to the definition `prefix` + `id`.
pub fn url_reference(prefix: &str, id: &str) -> (r: String)
    ensures
        r@ == url_of(prefix@, id@),
{
    let mut r = "url(#".to_owned();
    r.append(prefix);
    r.append(id);
    r.append(")");
    r
}

/// The model of an element.
pub uninterp spec fn markup_of(e: elementtree::Element) -> Markup;

/// What writing the element with the model `doc` as an XML document comes
/// to: the text of the document, or `None` where the writer fails.
pub uninterp spec fn xml_text(doc: Markup) -> Option<Seq<char>>;

/// The namespaces that `elementtree` binds to a fixed prefix of its own and
/// never registers on an element: the empty one, `xml` and `xmlns`.
pub open spec fn reserved_namespace(namespace: Seq<char>) -> bool {
    ||| namespace == ""@
    ||| namespace == "http://www.w3.org/XML/1998/namespace"@
    ||| namespace == "http://www.w3.org/2000/xmlns/"@
}

/// `Element::new`: the new element has the tag `tag`, in the namespace
/// `namespace` if there is one, and nothing else. An element in a
/// namespace registers it under the empty prefix, to be declared when the
/// element is written, unless the namespace is a reserved one.
#[verifier::external_body]
pub(crate) fn new_element(namespace: Option<&str>, tag: &str) -> (e: elementtree::Element)
    ensures
        markup_of(e) == match namespace {
            None => Markup::element(tag@, Map::empty(), Seq::empty()),
            Some(namespace) => if reserved_namespace(namespace@) {
                Markup {
                    namespace: Some(namespace@),
                    ..Markup::element(tag@, Map::empty(), Seq::empty())
                }
            } else {
                Markup::root(namespace@, tag@, Map::empty(), Seq::empty())
            },
        },
{
    elementtree::Element::new(&elementtree::QName::from_ns_name(namespace, tag))
}

/// `Element::set_attr` with a name outside any namespace: the attribute
/// `name` now has the value `value`, whether or not it was set before;
/// nothing else changes.
#[verifier::external_body]
pub(crate) fn set_attr(e: &mut elementtree::Element, name: &str, value: &str)
    ensures
        markup_of(*final(e)) == markup_of(*old(e)).with_attr(name@, value@),
{
    e.set_attr(&elementtree::QName::from_name(name), value);
}

/// `Element::append_child`: `child` becomes the last child; nothing else
/// changes.
#[verifier::external_body]
pub(crate) fn append_child(e: &mut elementtree::Element, child: elementtree::Element)
    ensures
        markup_of(*final(e)) == markup_of(*old(e)).with_child(markup_of(child)),
{
    e.append_child(child);
}

/// `Element::child_count`: the number of children.
#[verifier::external_body]
pub(crate) fn child_count(e: &elementtree::Element) -> (n: usize)
    ensures
        n == markup_of(*e).children.len(),
{
    e.child_count()
}

/// `Element::to_string`: whether it succeeds, and the text of the XML
/// document where it does, depend on nothing but what the element holds.
#[verifier::external_body]
pub(crate) fn element_to_string(e: &elementtree::Element) -> (r: Result<
    String,
    elementtree::Error,
>)
    ensures
        match r {
            Ok(s) => xml_text(markup_of(*e)) == Some(s@),
            Err(_) => xml_text(markup_of(*e)) is None,
        },
{
    e.to_string()
}

/// The message of an `elementtree::Error`, as its `Display` writes it.
#[verifier::external_body]
pub(crate) fn error_message(err: &elementtree::Error) -> String {
    format!("{}", err)
}

/// The attributes that place a box: its width, height, x and y.
pub open spec fn box_attrs(size: Size, position: Position) -> Map<Seq<char>, Seq<char>> {
    map![
        "width"@ => decimal(size.0 as nat),
        "height"@ => decimal(size.1 as nat),
        "x"@ => decimal(position.0 as nat),
        "y"@ => decimal(position.1 as nat),
    ]
}

/// Sets, on an element without attributes, those that place a box of size
/// `size` at `position`.
pub(crate) fn set_box_attrs(element: &mut elementtree::Element, size: Size, position: Position)
    requires
        markup_of(*old(element)).attrs == Map::<Seq<char>, Seq<char>>::empty(),
    ensures
        markup_of(*final(element)) == (Markup {
            attrs: box_attrs(size, position),
            ..markup_of(*old(element))
        }),
{
    set_attr(element, "width", decimal_string(size.0 as u64).as_str());
    set_attr(element, "height", decimal_string(size.1 as u64).as_str());
    set_attr(element, "x", decimal_string(position.0 as u64).as_str());
    set_attr(element, "y", decimal_string(position.1 as u64).as_str());
}

} // verus!
