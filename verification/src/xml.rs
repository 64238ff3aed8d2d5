//! The XML codec's writing half: a tree of elements and the text that
//! stands for it.

use vstd::prelude::*;
use vstd::string::*;

verus! {

/// An attribute of an element.
#[derive(Debug)]
pub struct XmlAttribute {
    pub name: String,
    pub value: String,
}

/// An element: its name as written (prefix included), its attributes in
/// order, its text, and its child elements in order.
#[derive(Debug)]
pub struct XmlElement {
    pub name: String,
    pub attributes: Vec<XmlAttribute>,
    pub text: String,
    pub children: Vec<XmlElement>,
}

/// An attribute as characters: its name and its value.
pub struct XmlAttributeView {
    pub name: Seq<char>,
    pub value: Seq<char>,
}

impl View for XmlAttribute {
    type V = XmlAttributeView;

    open spec fn view(&self) -> XmlAttributeView {
        XmlAttributeView { name: self.name@, value: self.value@ }
    }
}

/// An element as characters.
pub struct XmlElementView {
    pub name: Seq<char>,
    pub attributes: Seq<XmlAttributeView>,
    pub text: Seq<char>,
    pub children: Seq<XmlElementView>,
}

/// The element that a tree holds, as characters.
pub open spec fn element_view(element: XmlElement) -> XmlElementView
    decreases element,
{
    XmlElementView {
        name: element.name@,
        attributes: element.attributes@.map_values(|a: XmlAttribute| a@),
        text: element.text@,
        children: Seq::new(
            element.children@.len(),
            |i: int|
                if 0 <= i < element.children@.len() {
                    element_view(element.children@[i])
                } else {
                    arbitrary()
                },
        ),
    }
}

impl View for XmlElement {
    type V = XmlElementView;

    open spec fn view(&self) -> XmlElementView {
        element_view(*self)
    }
}

/// The attribute `name="value"`.
pub open spec fn attr(name: Seq<char>, value: Seq<char>) -> XmlAttributeView {
    XmlAttributeView { name, value }
}

/// An element with attributes and children and no text.
pub open spec fn node(
    name: Seq<char>,
    attributes: Seq<XmlAttributeView>,
    children: Seq<XmlElementView>,
) -> XmlElementView {
    XmlElementView { name, attributes, text: Seq::empty(), children }
}

/// An element that holds a text and nothing else.
pub open spec fn text_node(name: Seq<char>, text: Seq<char>) -> XmlElementView {
    XmlElementView { name, attributes: Seq::empty(), text, children: Seq::empty() }
}

/// An element that holds nothing.
pub open spec fn leaf(name: Seq<char>) -> XmlElementView {
    text_node(name, Seq::empty())
}

impl XmlElement {
    /// An element of that name that holds nothing.
    pub fn new(name: &str) -> (out: Self)
        ensures
            out@ == leaf(name@),
    {
        let out = XmlElement {
            name: name.to_owned(),
            attributes: Vec::new(),
            text: String::new(),
            children: Vec::new(),
        };
        assert(out@.attributes == Seq::<XmlAttributeView>::empty());
        assert(out@.children == Seq::<XmlElementView>::empty());
        out
    }

    /// An element of that name that holds the text.
    pub fn with_text(name: &str, text: &str) -> (out: Self)
        ensures
            out@ == text_node(name@, text@),
    {
        let out = XmlElement {
            name: name.to_owned(),
            attributes: Vec::new(),
            text: text.to_owned(),
            children: Vec::new(),
        };
        assert(out@.attributes == Seq::<XmlAttributeView>::empty());
        assert(out@.children == Seq::<XmlElementView>::empty());
        out
    }

    /// Adds an attribute behind those that the element has.
    pub fn attribute(&mut self, name: &str, value: &str)
        ensures
            final(self)@ == (XmlElementView {
                attributes: old(self)@.attributes.push(attr(name@, value@)),
                ..old(self)@
            }),
    {
        let attribute = XmlAttribute { name: name.to_owned(), value: value.to_owned() };
        self.attributes.push(attribute);
        assert(self@.attributes == old(self)@.attributes.push(attr(name@, value@)));
        assert(self@.children == old(self)@.children);
    }

    /// Adds a child behind those that the element has.
    pub fn child(&mut self, child: XmlElement)
        ensures
            final(self)@ == (XmlElementView {
                children: old(self)@.children.push(child@),
                ..old(self)@
            }),
    {
        self.children.push(child);
        assert(self@.attributes == old(self)@.attributes);
        assert(self@.children == old(self)@.children.push(child@));
    }
}

/// What stands for one character in escaped text.
pub open spec fn escaped_char(c: char) -> Seq<char> {
    if c == '<' {
        "&lt;"@
    } else if c == '>' {
        "&gt;"@
    } else if c == '&' {
        "&amp;"@
    } else if c == '\'' {
        "&apos;"@
    } else if c == '"' {
        "&quot;"@
    } else if c == '\r' {
        "&#13;"@
    } else {
        seq![c]
    }
}

/// A text with each of its characters escaped.
pub open spec fn escaped(s: Seq<char>) -> Seq<char>
    decreases s.len(),
{
    if s.len() == 0 {
        Seq::empty()
    } else {
        escaped(s.drop_last()) + escaped_char(s.last())
    }
}

/// Whether a character has a meaning of its own in XML text or in an
/// attribute value.
pub open spec fn is_markup(c: char) -> bool {
    c == '<' || c == '>' || c == '"' || c == '\'' || c == '\r'
}

/// What stands for a character holds none that has a meaning of its own,
/// and an ampersand only at the start of a reference.
pub proof fn lemma_escaped_char_is_plain(c: char)
    ensures
        forall|i: int| 0 <= i < escaped_char(c).len() ==> !is_markup(#[trigger] escaped_char(c)[i]),
        forall|i: int| 0 < i < escaped_char(c).len() ==> (#[trigger] escaped_char(c)[i]) != '&',
        escaped_char(c).len() > 0,
        escaped_char(c)[0] == '&' ==> escaped_char(c).last() == ';',
{
    reveal_strlit("&lt;");
    reveal_strlit("&gt;");
    reveal_strlit("&amp;");
    reveal_strlit("&apos;");
    reveal_strlit("&quot;");
    reveal_strlit("&#13;");
}

/// An escaped text holds no `<`, `>`, quote or carriage return: whatever a
/// value holds, it cannot end the tag or the attribute it is written in.
pub proof fn lemma_escaped_is_plain(s: Seq<char>)
    ensures
        forall|i: int| 0 <= i < escaped(s).len() ==> !is_markup(#[trigger] escaped(s)[i]),
    decreases s.len(),
{
    if s.len() > 0 {
        lemma_escaped_is_plain(s.drop_last());
        lemma_escaped_char_is_plain(s.last());
        let head = escaped(s.drop_last());
        let tail = escaped_char(s.last());
        assert forall|i: int| 0 <= i < escaped(s).len() implies !is_markup(
            #[trigger] escaped(s)[i],
        ) by {
            if i < head.len() {
                assert(escaped(s)[i] == head[i]);
            } else {
                assert(escaped(s)[i] == tail[i - head.len()]);
            }
        }
    }
}

/// A text without characters that need escaping is written as it is.
pub proof fn lemma_plain_text_is_not_changed(s: Seq<char>)
    requires
        forall|i: int| 0 <= i < s.len() ==> !is_markup(#[trigger] s[i]) && s[i] != '&',
    ensures
        escaped(s) == s,
    decreases s.len(),
{
    if s.len() > 0 {
        lemma_plain_text_is_not_changed(s.drop_last());
        assert(escaped_char(s.last()) == seq![s.last()]);
        assert(s.drop_last() + seq![s.last()] == s);
    }
}

/// Calls `quick_xml::escape::escape`, which replaces `<`, `>`, `&`, `'`,
/// `"` and the carriage return by `&lt;`, `&gt;`, `&amp;`, `&apos;`,
/// `&quot;` and `&#13;`, and leaves every other character as it is.
#[verifier::external_body]
pub(crate) fn escape(raw: &str) -> (out: String)
    ensures
        out@ == escaped(raw@),
{
    quick_xml::escape::escape(raw).into_owned()
}

/// The text of one attribute: a space, the name, and the escaped value in
/// double quotes.
pub open spec fn attribute_text(attribute: XmlAttributeView) -> Seq<char> {
    " "@ + attribute.name + "=\""@ + escaped(attribute.value) + "\""@
}

/// The texts of a run of attributes, one behind the other.
pub open spec fn attributes_text(attributes: Seq<XmlAttributeView>) -> Seq<char>
    decreases attributes.len(),
{
    if attributes.len() == 0 {
        Seq::empty()
    } else {
        attributes_text(attributes.drop_last()) + attribute_text(attributes.last())
    }
}

/// The text of an element. One without text and children is written as an
/// empty-element tag; any other as a start tag, the escaped text, the
/// children, and the end tag.
pub open spec fn element_text(element: XmlElementView) -> Seq<char>
    decreases element,
{
    let head = "<"@ + element.name + attributes_text(element.attributes);
    if element.text.len() == 0 && element.children.len() == 0 {
        head + "/>"@
    } else {
        head + ">"@ + escaped(element.text) + elements_text(element.children) + "</"@
            + element.name + ">"@
    }
}

/// The texts of a run of elements, one behind the other.
pub open spec fn elements_text(elements: Seq<XmlElementView>) -> Seq<char>
    decreases elements,
{
    if elements.len() == 0 {
        Seq::empty()
    } else {
        elements_text(elements.drop_last()) + element_text(elements.last())
    }
}

/// One more attribute is written behind the others.
pub proof fn lemma_attributes_push(attributes: Seq<XmlAttributeView>, last: XmlAttributeView)
    ensures
        attributes_text(attributes.push(last)) == attributes_text(attributes) + attribute_text(
            last,
        ),
{
    assert(attributes.push(last).drop_last() == attributes);
}

/// One more element is written behind the others.
pub proof fn lemma_elements_push(elements: Seq<XmlElementView>, last: XmlElementView)
    ensures
        elements_text(elements.push(last)) == elements_text(elements) + element_text(last),
{
    assert(elements.push(last).drop_last() == elements);
}

/// An attribute whose value needs no escaping is written as a space, the
/// name, and the value in double quotes.
pub proof fn lemma_plain_attribute(name: Seq<char>, value: Seq<char>)
    requires
        forall|i: int| 0 <= i < value.len() ==> !is_markup(#[trigger] value[i]) && value[i] != '&',
    ensures
        attribute_text(attr(name, value)) == " "@ + name + "=\""@ + value + "\""@,
{
    lemma_plain_text_is_not_changed(value);
}

/// An element without attributes, text and children is written as an
/// empty-element tag of its name.
pub proof fn lemma_leaf_text(name: Seq<char>)
    ensures
        element_text(leaf(name)) == "<"@ + name + "/>"@,
{
    assert(attributes_text(Seq::empty()) == Seq::<char>::empty());
    assert("<"@ + name + Seq::<char>::empty() == "<"@ + name);
}

/// An element without text is written as its start tag with its
/// attributes, its children, and its end tag.
pub proof fn lemma_node_text(
    name: Seq<char>,
    attributes: Seq<XmlAttributeView>,
    children: Seq<XmlElementView>,
)
    requires
        children.len() > 0,
    ensures
        element_text(node(name, attributes, children)) == "<"@ + name + attributes_text(
            attributes,
        ) + ">"@ + elements_text(children) + "</"@ + name + ">"@,
{
    assert(escaped(Seq::empty()) == Seq::<char>::empty());
    let head = "<"@ + name + attributes_text(attributes) + ">"@;
    assert(head + Seq::<char>::empty() == head);
}

/// Writes the attributes behind what `out` holds.
fn write_attributes(attributes: &Vec<XmlAttribute>, out: &mut String)
    ensures
        final(out)@ == old(out)@ + attributes_text(
            attributes@.map_values(|a: XmlAttribute| a@),
        ),
{
    let ghost views = attributes@.map_values(|a: XmlAttribute| a@);
    let mut i: usize = 0;
    assert(views.take(0) == Seq::<XmlAttributeView>::empty());
    while i < attributes.len()
        invariant
            i <= attributes.len(),
            views == attributes@.map_values(|a: XmlAttribute| a@),
            out@ == old(out)@ + attributes_text(views.take(i as int)),
        decreases attributes.len() - i,
    {
        assert(views.take(i + 1).drop_last() == views.take(i as int));
        let attribute = &attributes[i];
        let value = escape(attribute.value.as_str());
        out.append(" ");
        out.append(attribute.name.as_str());
        out.append("=\"");
        out.append(value.as_str());
        out.append("\"");
        i = i + 1;
    }
    assert(views.take(attributes.len() as int) == views);
}

/// Writes the element behind what `out` holds.
pub fn write_element(element: &XmlElement, out: &mut String)
    ensures
        final(out)@ == old(out)@ + element_text(element@),
    decreases element,
{
    out.append("<");
    out.append(element.name.as_str());
    write_attributes(&element.attributes, out);
    if element.text.as_str().unicode_len() == 0 && element.children.len() == 0 {
        out.append("/>");
    } else {
        let text = escape(element.text.as_str());
        out.append(">");
        out.append(text.as_str());
        let ghost before = out@;
        let ghost views = element@.children;
        let mut i: usize = 0;
        assert(views.take(0) == Seq::<XmlElementView>::empty());
        while i < element.children.len()
            invariant
                i <= element.children.len(),
                views == element@.children,
                out@ == before + elements_text(views.take(i as int)),
            decreases element.children.len() - i,
        {
            assert(views.take(i + 1).drop_last() == views.take(i as int));
            write_element(&element.children[i], out);
            i = i + 1;
        }
        assert(views.take(element.children.len() as int) == views);
        out.append("</");
        out.append(element.name.as_str());
        out.append(">");
    }
}

/// The XML text of a document whose root is `element`.
pub fn encode(element: &XmlElement) -> (out: String)
    ensures
        out@ == element_text(element@),
{
    let mut out = String::new();
    write_element(element, &mut out);
    out
}

} // verus!
