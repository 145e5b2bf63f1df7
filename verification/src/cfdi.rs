//! CFDI documents: the XML tree of an invoice and the summary the import
//! keeps of it (UUID, kind, total, date, issuer and receiver).

use vstd::prelude::*;
use vstd::string::StrSliceExecFns;
use vstd::string::StringExecFns;
use crate::text::{same_text, strip_prefix, to_lowercase, lowercase_text};

verus! {

/// An attribute of an XML element: its namespace URI (if any), local name and value.
#[derive(Debug, Clone)]
pub struct XmlAttr {
    pub namespace: Option<String>,
    pub name: String,
    pub value: String,
}

/// A node of an XML document: whether it is an element, its local name, its
/// attributes and the positions of its children. A document is the list of
/// its nodes in document order.
#[derive(Debug, Clone)]
pub struct XmlNode {
    pub element: bool,
    pub name: String,
    pub attrs: Vec<XmlAttr>,
    pub children: Vec<usize>,
}

pub open spec fn attr_view(a: XmlAttr) -> (Option<Seq<char>>, Seq<char>, Seq<char>) {
    (match a.namespace {
        Some(n) => Some(n@),
        None => None,
    }, a.name@, a.value@)
}

pub open spec fn node_view(n: XmlNode) -> (bool, Seq<char>, Seq<(Option<Seq<char>>, Seq<char>, Seq<char>)>, Seq<usize>) {
    (n.element, n.name@, n.attrs@.map_values(|a: XmlAttr| attr_view(a)), n.children@)
}

pub open spec fn nodes_view(v: Seq<XmlNode>) -> Seq<(bool, Seq<char>, Seq<(Option<Seq<char>>, Seq<char>, Seq<char>)>, Seq<usize>)> {
    v.map_values(|n: XmlNode| node_view(n))
}

/// The nodes of an XML text as the XML library reads them (document order),
/// or `None` when the text is not well-formed XML.
pub uninterp spec fn xml_nodes_of(xml: Seq<char>) -> Option<Seq<(bool, Seq<char>, Seq<(Option<Seq<char>>, Seq<char>, Seq<char>)>, Seq<usize>)>>;

/// Calls `roxmltree::Document::parse` and lists `descendants()` of the
/// document, each node with its kind, local tag name, attributes and the
/// ids of its children. The list is named.
#[verifier::external_body]
fn roxmltree_nodes(xml: &str) -> (r: Option<Vec<XmlNode>>)
    ensures
        match r {
            Some(v) => xml_nodes_of(xml@) == Some(nodes_view(v@)),
            None => xml_nodes_of(xml@) is None,
        },
{
    let doc = roxmltree::Document::parse(xml).ok()?;
    Some(doc.descendants().map(|n| XmlNode {
        element: n.is_element(),
        name: n.tag_name().name().to_string(),
        attrs: n.attributes().map(|a| XmlAttr {
            namespace: a.namespace().map(|s| s.to_string()),
            name: a.name().to_string(),
            value: a.value().to_string(),
        }).collect(),
        children: n.children().map(|c| c.id().get_usize()).collect(),
    }).collect())
}

/// The value of the first attribute at or after position `i` named `name`
/// without a namespace.
pub open spec fn attr_from(attrs: Seq<(Option<Seq<char>>, Seq<char>, Seq<char>)>, name: Seq<char>, i: int) -> Option<Seq<char>>
    decreases attrs.len() - i,
{
    if i < 0 || i >= attrs.len() {
        None
    } else if attrs[i].0 is None && attrs[i].1 == name {
        Some(attrs[i].2)
    } else {
        attr_from(attrs, name, i + 1)
    }
}

/// The value of an element's attribute, looked up by its name without a namespace.
pub fn attribute<'a>(node: &'a XmlNode, name: &str) -> (r: Option<&'a str>)
    ensures
        match attr_from(node_view(*node).2, name@, 0) {
            Some(v) => r matches Some(s) && s@ == v,
            None => r is None,
        },
{
    let ghost attrs = node_view(*node).2;
    let mut i: usize = 0;
    while i < node.attrs.len()
        invariant
            i <= node.attrs@.len(),
            attrs == node.attrs@.map_values(|a: XmlAttr| attr_view(a)),
            attr_from(attrs, name@, 0) == attr_from(attrs, name@, i as int),
        decreases node.attrs.len() - i,
    {
        let a = &node.attrs[i];
        assert(attrs[i as int] == attr_view(*a));
        if a.namespace.is_none() && same_text(a.name.as_str(), name) {
            return Some(a.value.as_str());
        }
        i = i + 1;
    }
    None
}

/// An attribute's value, or `default` when the element has none by that name.
pub open spec fn attr_or(ns: Seq<(bool, Seq<char>, Seq<(Option<Seq<char>>, Seq<char>, Seq<char>)>, Seq<usize>)>, node: Option<int>, name: Seq<char>, default: Seq<char>) -> Seq<char> {
    match node {
        Some(i) => match attr_from(ns[i].2, name, 0) {
            Some(v) => v,
            None => default,
        },
        None => default,
    }
}

/// The first position at or after `i` of an element named `local`.
pub open spec fn element_from(ns: Seq<(bool, Seq<char>, Seq<(Option<Seq<char>>, Seq<char>, Seq<char>)>, Seq<usize>)>, local: Seq<char>, i: int) -> Option<int>
    decreases ns.len() - i,
{
    if i < 0 || i >= ns.len() {
        None
    } else if ns[i].0 && ns[i].1 == local {
        Some(i)
    } else {
        element_from(ns, local, i + 1)
    }
}

/// The first element at or after position `i`.
pub open spec fn first_element_from(ns: Seq<(bool, Seq<char>, Seq<(Option<Seq<char>>, Seq<char>, Seq<char>)>, Seq<usize>)>, i: int) -> Option<int>
    decreases ns.len() - i,
{
    if i < 0 || i >= ns.len() {
        None
    } else if ns[i].0 {
        Some(i)
    } else {
        first_element_from(ns, i + 1)
    }
}

/// The position of the document's root element: its first element.
pub fn root_element(nodes: &Vec<XmlNode>) -> (r: Option<usize>)
    ensures
        r matches Some(i) ==> i < nodes@.len(),
        match first_element_from(nodes_view(nodes@), 0) {
            Some(i) => r matches Some(j) && j as int == i,
            None => r is None,
        },
{
    let ghost ns = nodes_view(nodes@);
    let mut i: usize = 0;
    while i < nodes.len()
        invariant
            i <= nodes@.len(),
            ns == nodes_view(nodes@),
            first_element_from(ns, 0) == first_element_from(ns, i as int),
        decreases nodes.len() - i,
    {
        assert(ns[i as int] == node_view(nodes@[i as int]));
        if nodes[i].element {
            return Some(i);
        }
        i = i + 1;
    }
    None
}

/// The first element named `local` at or after position `start`. Started at
/// the root element, it finds the first such element among the root and its
/// descendants, in document order.
pub fn element_after(nodes: &Vec<XmlNode>, start: usize, local: &str) -> (r: Option<usize>)
    ensures
        r matches Some(i) ==> start <= i < nodes@.len(),
        match element_from(nodes_view(nodes@), local@, start as int) {
            Some(i) => r matches Some(j) && j as int == i,
            None => r is None,
        },
{
    let ghost ns = nodes_view(nodes@);
    let mut i: usize = start;
    if i > nodes.len() {
        return None;
    }
    while i < nodes.len()
        invariant
            start <= i <= nodes@.len(),
            ns == nodes_view(nodes@),
            element_from(ns, local@, start as int) == element_from(ns, local@, i as int),
        decreases nodes.len() - i,
    {
        assert(ns[i as int] == node_view(nodes@[i as int]));
        if nodes[i].element && same_text(nodes[i].name.as_str(), local) {
            return Some(i);
        }
        i = i + 1;
    }
    None
}

/// The first child (from position `k` of the child list) of node `parent`
/// that is an element named `local`.
pub open spec fn child_from(ns: Seq<(bool, Seq<char>, Seq<(Option<Seq<char>>, Seq<char>, Seq<char>)>, Seq<usize>)>, parent: int, local: Seq<char>, k: int) -> Option<int>
    decreases ns[parent].3.len() - k,
{
    if k < 0 || k >= ns[parent].3.len() {
        None
    } else {
        let c = ns[parent].3[k] as int;
        if c < ns.len() && ns[c].0 && ns[c].1 == local {
            Some(c)
        } else {
            child_from(ns, parent, local, k + 1)
        }
    }
}

/// The first child element of `parent` named `local`.
pub fn child(nodes: &Vec<XmlNode>, parent: usize, local: &str) -> (r: Option<usize>)
    requires
        parent < nodes@.len(),
    ensures
        r matches Some(i) ==> i < nodes@.len(),
        match child_from(nodes_view(nodes@), parent as int, local@, 0) {
            Some(i) => r matches Some(j) && j as int == i,
            None => r is None,
        },
{
    let ghost ns = nodes_view(nodes@);
    let kids = &nodes[parent].children;
    assert(ns[parent as int] == node_view(nodes@[parent as int]));
    let mut k: usize = 0;
    while k < kids.len()
        invariant
            k <= kids@.len(),
            ns == nodes_view(nodes@),
            parent < nodes@.len(),
            kids@ == ns[parent as int].3,
            child_from(ns, parent as int, local@, 0) == child_from(ns, parent as int, local@, k as int),
        decreases kids.len() - k,
    {
        let c = kids[k];
        if c < nodes.len() {
            assert(ns[c as int] == node_view(nodes@[c as int]));
            if nodes[c].element && same_text(nodes[c].name.as_str(), local) {
                return Some(c);
            }
        }
        k = k + 1;
    }
    None
}

/// Key fields of an imported CFDI.
#[derive(Debug, Clone)]
pub struct ImportedCfdi {
    pub uuid: String,
    /// "I" ingreso, "E" egreso, "T" traslado, "N" nómina, "P" pago.
    pub tipo_de_comprobante: String,
    pub total: String,
    pub fecha: String,
    pub emisor_rfc: String,
    pub emisor_nombre: String,
    pub receptor_rfc: String,
    pub receptor_nombre: String,
}

pub open spec fn imported_view(c: ImportedCfdi) -> (Seq<char>, Seq<char>, Seq<char>, Seq<char>, Seq<char>, Seq<char>, Seq<char>, Seq<char>) {
    (c.uuid@, c.tipo_de_comprobante@, c.total@, c.fecha@, c.emisor_rfc@, c.emisor_nombre@, c.receptor_rfc@, c.receptor_nombre@)
}

/// The summary of a CFDI's XML nodes: the root must be a `Comprobante`
/// holding a `TimbreFiscalDigital` with a `UUID` (kept in lower case). The
/// kind, total ("0" when absent) and date come from the root; RFC and name of
/// issuer and receiver from its `Emisor` and `Receptor` children (blank when absent).
pub open spec fn cfdi_summary_spec(ns: Seq<(bool, Seq<char>, Seq<(Option<Seq<char>>, Seq<char>, Seq<char>)>, Seq<usize>)>) -> Result<
    (Seq<char>, Seq<char>, Seq<char>, Seq<char>, Seq<char>, Seq<char>, Seq<char>, Seq<char>),
    Seq<char>,
> {
    match first_element_from(ns, 0) {
        None => Err("Root element is not cfdi:Comprobante"@),
        Some(root) => if ns[root].1 != "Comprobante"@ {
            Err("Root element is not cfdi:Comprobante"@)
        } else {
            match element_from(ns, "TimbreFiscalDigital"@, root) {
                None => Err("TimbreFiscalDigital not found — maybe not a timbrado CFDI"@),
                Some(tfd) => match attr_from(ns[tfd].2, "UUID"@, 0) {
                    None => Err("UUID missing in TimbreFiscalDigital"@),
                    Some(u) => {
                        let emisor = child_from(ns, root, "Emisor"@, 0);
                        let receptor = child_from(ns, root, "Receptor"@, 0);
                        Ok((
                            lowercase_text(u),
                            attr_or(ns, Some(root), "TipoDeComprobante"@, ""@),
                            attr_or(ns, Some(root), "Total"@, "0"@),
                            attr_or(ns, Some(root), "Fecha"@, ""@),
                            attr_or(ns, emisor, "Rfc"@, ""@),
                            attr_or(ns, emisor, "Nombre"@, ""@),
                            attr_or(ns, receptor, "Rfc"@, ""@),
                            attr_or(ns, receptor, "Nombre"@, ""@),
                        ))
                    },
                },
            }
        },
    }
}

pub(crate) fn attr_string(nodes: &Vec<XmlNode>, node: Option<usize>, name: &str, default: &str) -> (r: String)
    requires
        node matches Some(i) ==> i < nodes@.len(),
    ensures
        r@ == attr_or(nodes_view(nodes@), match node { Some(i) => Some(i as int), None => None }, name@, default@),
{
    match node {
        Some(i) => {
            assert(nodes_view(nodes@)[i as int] == node_view(nodes@[i as int]));
            match attribute(&nodes[i], name) {
                Some(v) => String::from_str(v),
                None => String::from_str(default),
            }
        },
        None => String::from_str(default),
    }
}

pub open spec fn summary_view(r: Result<ImportedCfdi, String>) -> Result<
    (Seq<char>, Seq<char>, Seq<char>, Seq<char>, Seq<char>, Seq<char>, Seq<char>, Seq<char>),
    Seq<char>,
> {
    match r {
        Ok(c) => Ok(imported_view(c)),
        Err(m) => Err(m@),
    }
}

/// Reads the summary of a CFDI from its XML nodes.
pub fn parse_cfdi(nodes: &Vec<XmlNode>) -> (r: Result<ImportedCfdi, String>)
    ensures
        summary_view(r) == cfdi_summary_spec(nodes_view(nodes@)),
{
    let ghost ns = nodes_view(nodes@);
    let root = match root_element(nodes) {
        Some(r) => r,
        None => return Err(String::from_str("Root element is not cfdi:Comprobante")),
    };
    assert(ns[root as int] == node_view(nodes@[root as int]));
    if !same_text(nodes[root].name.as_str(), "Comprobante") {
        return Err(String::from_str("Root element is not cfdi:Comprobante"));
    }
    let tfd = match element_after(nodes, root, "TimbreFiscalDigital") {
        Some(t) => t,
        None => return Err(String::from_str("TimbreFiscalDigital not found — maybe not a timbrado CFDI")),
    };
    assert(ns[tfd as int] == node_view(nodes@[tfd as int]));
    let uuid = match attribute(&nodes[tfd], "UUID") {
        Some(u) => to_lowercase(u),
        None => return Err(String::from_str("UUID missing in TimbreFiscalDigital")),
    };
    let emisor = child(nodes, root, "Emisor");
    let receptor = child(nodes, root, "Receptor");
    Ok(ImportedCfdi {
        uuid,
        tipo_de_comprobante: attr_string(nodes, Some(root), "TipoDeComprobante", ""),
        total: attr_string(nodes, Some(root), "Total", "0"),
        fecha: attr_string(nodes, Some(root), "Fecha", ""),
        emisor_rfc: attr_string(nodes, emisor, "Rfc", ""),
        emisor_nombre: attr_string(nodes, emisor, "Nombre", ""),
        receptor_rfc: attr_string(nodes, receptor, "Rfc", ""),
        receptor_nombre: attr_string(nodes, receptor, "Nombre", ""),
    })
}

/// The XML text of a CFDI without a leading byte-order mark.
pub open spec fn without_bom(xml: Seq<char>) -> Seq<char> {
    if xml.len() > 0 && xml[0] == '\u{FEFF}' {
        xml.subrange(1, xml.len() as int)
    } else {
        xml
    }
}

/// Parses a CFDI's XML text (a leading byte-order mark is skipped) into its
/// nodes and summary; the nodes are kept for storing the whole document.
pub fn read_cfdi_xml(xml: &str) -> (r: Result<(Vec<XmlNode>, ImportedCfdi), String>)
    ensures
        match xml_nodes_of(without_bom(xml@)) {
            None => r matches Err(m) && m@ == "Parsing CFDI XML"@,
            Some(ns) => match cfdi_summary_spec(ns) {
                Ok(s) => r matches Ok(p) && nodes_view(p.0@) == ns && imported_view(p.1) == s,
                Err(m) => r matches Err(e) && e@ == m,
            },
        },
{
    proof {
        reveal_strlit("\u{FEFF}");
        assert("\u{FEFF}"@.len() == 1);
    }
    let body = match strip_prefix(xml, "\u{FEFF}") {
        Some(rest) => rest,
        None => xml,
    };
    assert(body@ == without_bom(xml@)) by {
        if xml@.len() > 0 && xml@[0] == '\u{FEFF}' {
            assert("\u{FEFF}"@ =~= xml@.subrange(0, 1));
            assert("\u{FEFF}"@.is_prefix_of(xml@));
        } else if "\u{FEFF}"@.is_prefix_of(xml@) {
            assert(xml@.subrange(0, 1)[0] == "\u{FEFF}"@[0]);
        }
    }
    let nodes = match roxmltree_nodes(body) {
        Some(n) => n,
        None => return Err(String::from_str("Parsing CFDI XML")),
    };
    match parse_cfdi(&nodes) {
        Ok(summary) => Ok((nodes, summary)),
        Err(m) => Err(m),
    }
}

} // verus!
