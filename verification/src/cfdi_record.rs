//! The stored form of a CFDI: every attribute the import keeps, read from
//! the invoice's XML nodes, grouped as the database document groups them.

use vstd::prelude::*;
use vstd::string::StrSliceExecFns;
use vstd::string::StringExecFns;
use crate::cfdi::{
    attr_or, attr_string, child, child_from, cfdi_summary_spec, element_from, first_element_from,
    imported_view, node_view, nodes_view, parse_cfdi, ImportedCfdi, XmlNode,
};
use crate::cfdi::attr_from;
use crate::text::{lowercase_text, same_text};

verus! {

/// The nodes of a document, as the XML reader lists them.
pub type NodesView = Seq<(bool, Seq<char>, Seq<(Option<Seq<char>>, Seq<char>, Seq<char>)>, Seq<usize>)>;

pub open spec fn opt_int(o: Option<usize>) -> Option<int> {
    match o {
        Some(i) => Some(i as int),
        None => None,
    }
}

/// Pairs of texts taken by their views.
pub open spec fn pairs_view(v: Seq<(String, String)>) -> Seq<(Seq<char>, Seq<char>)> {
    v.map_values(|p: (String, String)| (p.0@, p.1@))
}

pub open spec fn table_view(v: Seq<(&str, &str)>) -> Seq<(Seq<char>, Seq<char>)> {
    v.map_values(|p: (&str, &str)| (p.0@, p.1@))
}

/// The fields of a node under a table of (stored name, attribute name): each
/// attribute's value, blank when the node lacks it (or there is no node).
pub open spec fn fields_spec(ns: NodesView, node: Option<int>, table: Seq<(Seq<char>, Seq<char>)>) -> Seq<(Seq<char>, Seq<char>)> {
    Seq::new(table.len(), |i: int| (table[i].0, attr_or(ns, node, table[i].1, ""@)))
}

fn read_fields(nodes: &Vec<XmlNode>, node: Option<usize>, table: &Vec<(&str, &str)>) -> (r: Vec<(String, String)>)
    requires
        node matches Some(i) ==> i < nodes@.len(),
    ensures
        pairs_view(r@) == fields_spec(nodes_view(nodes@), opt_int(node), table_view(table@)),
{
    let ghost spec = fields_spec(nodes_view(nodes@), opt_int(node), table_view(table@));
    let mut r: Vec<(String, String)> = Vec::new();
    let mut i: usize = 0;
    while i < table.len()
        invariant
            i <= table@.len(),
            node matches Some(j) ==> j < nodes@.len(),
            spec == fields_spec(nodes_view(nodes@), opt_int(node), table_view(table@)),
            pairs_view(r@) == spec.subrange(0, i as int),
        decreases table.len() - i,
    {
        let (key, attr) = table[i];
        let value = attr_string(nodes, node, attr, "");
        let ghost before = r@;
        r.push((String::from_str(key), value));
        proof {
            assert(table_view(table@)[i as int] == (key@, attr@));
            assert(pairs_view(r@) =~= pairs_view(before).push((key@, value@)));
            assert(spec.subrange(0, i as int + 1) =~= spec.subrange(0, i as int).push(spec[i as int]));
        }
        i = i + 1;
    }
    assert(spec.subrange(0, spec.len() as int) =~= spec);
    r
}

pub open spec fn comprobante_table() -> Seq<(Seq<char>, Seq<char>)> {
    seq![
        ("version"@, "Version"@),
        ("folio"@, "Folio"@),
        ("fecha"@, "Fecha"@),
        ("formaPago"@, "FormaPago"@),
        ("metodoPago"@, "MetodoPago"@),
        ("tipoDeComprobante"@, "TipoDeComprobante"@),
        ("exportacion"@, "Exportacion"@),
        ("moneda"@, "Moneda"@),
        ("subTotal"@, "SubTotal"@),
        ("total"@, "Total"@),
        ("lugarExpedicion"@, "LugarExpedicion"@),
        ("noCertificado"@, "NoCertificado"@),
        ("sello"@, "Sello"@),
        ("certificado"@, "Certificado"@),
    ]
}

fn comprobante_fields() -> (t: Vec<(&'static str, &'static str)>)
    ensures
        table_view(t@) == comprobante_table(),
{
    let t: Vec<(&'static str, &'static str)> = vec![
        ("version", "Version"),
        ("folio", "Folio"),
        ("fecha", "Fecha"),
        ("formaPago", "FormaPago"),
        ("metodoPago", "MetodoPago"),
        ("tipoDeComprobante", "TipoDeComprobante"),
        ("exportacion", "Exportacion"),
        ("moneda", "Moneda"),
        ("subTotal", "SubTotal"),
        ("total", "Total"),
        ("lugarExpedicion", "LugarExpedicion"),
        ("noCertificado", "NoCertificado"),
        ("sello", "Sello"),
        ("certificado", "Certificado"),
    ];
    assert(table_view(t@) =~= comprobante_table());
    t
}

pub open spec fn emisor_table() -> Seq<(Seq<char>, Seq<char>)> {
    seq![("rfc"@, "Rfc"@), ("nombre"@, "Nombre"@), ("regimenFiscal"@, "RegimenFiscal"@)]
}

fn emisor_fields() -> (t: Vec<(&'static str, &'static str)>)
    ensures
        table_view(t@) == emisor_table(),
{
    let t: Vec<(&'static str, &'static str)> = vec![("rfc", "Rfc"), ("nombre", "Nombre"), ("regimenFiscal", "RegimenFiscal")];
    assert(table_view(t@) =~= emisor_table());
    t
}

pub open spec fn receptor_table() -> Seq<(Seq<char>, Seq<char>)> {
    seq![
        ("rfc"@, "Rfc"@),
        ("nombre"@, "Nombre"@),
        ("domicilioFiscal"@, "DomicilioFiscalReceptor"@),
        ("regimenFiscal"@, "RegimenFiscalReceptor"@),
        ("usoCFDI"@, "UsoCFDI"@),
    ]
}

fn receptor_fields() -> (t: Vec<(&'static str, &'static str)>)
    ensures
        table_view(t@) == receptor_table(),
{
    let t: Vec<(&'static str, &'static str)> = vec![
        ("rfc", "Rfc"),
        ("nombre", "Nombre"),
        ("domicilioFiscal", "DomicilioFiscalReceptor"),
        ("regimenFiscal", "RegimenFiscalReceptor"),
        ("usoCFDI", "UsoCFDI"),
    ];
    assert(table_view(t@) =~= receptor_table());
    t
}

pub open spec fn concepto_table() -> Seq<(Seq<char>, Seq<char>)> {
    seq![
        ("claveProdServ"@, "ClaveProdServ"@),
        ("claveUnidad"@, "ClaveUnidad"@),
        ("cantidad"@, "Cantidad"@),
        ("noIdentificacion"@, "NoIdentificacion"@),
        ("descripcion"@, "Descripcion"@),
        ("valorUnitario"@, "ValorUnitario"@),
        ("importe"@, "Importe"@),
        ("objetoImp"@, "ObjetoImp"@),
    ]
}

fn concepto_fields() -> (t: Vec<(&'static str, &'static str)>)
    ensures
        table_view(t@) == concepto_table(),
{
    let t: Vec<(&'static str, &'static str)> = vec![
        ("claveProdServ", "ClaveProdServ"),
        ("claveUnidad", "ClaveUnidad"),
        ("cantidad", "Cantidad"),
        ("noIdentificacion", "NoIdentificacion"),
        ("descripcion", "Descripcion"),
        ("valorUnitario", "ValorUnitario"),
        ("importe", "Importe"),
        ("objetoImp", "ObjetoImp"),
    ];
    assert(table_view(t@) =~= concepto_table());
    t
}

pub open spec fn traslado_table() -> Seq<(Seq<char>, Seq<char>)> {
    seq![
        ("base"@, "Base"@),
        ("impuesto"@, "Impuesto"@),
        ("tipoFactor"@, "TipoFactor"@),
        ("tasaOCuota"@, "TasaOCuota"@),
        ("importe"@, "Importe"@),
    ]
}

fn traslado_fields() -> (t: Vec<(&'static str, &'static str)>)
    ensures
        table_view(t@) == traslado_table(),
{
    let t: Vec<(&'static str, &'static str)> = vec![
        ("base", "Base"),
        ("impuesto", "Impuesto"),
        ("tipoFactor", "TipoFactor"),
        ("tasaOCuota", "TasaOCuota"),
        ("importe", "Importe"),
    ];
    assert(table_view(t@) =~= traslado_table());
    t
}

/// The stamp fields besides its version and UUID.
pub open spec fn timbre_table() -> Seq<(Seq<char>, Seq<char>)> {
    seq![
        ("fechaTimbrado"@, "FechaTimbrado"@),
        ("rfcProvCertif"@, "RfcProvCertif"@),
        ("noCertificadoSAT"@, "NoCertificadoSAT"@),
        ("selloCFD"@, "SelloCFD"@),
        ("selloSAT"@, "SelloSAT"@),
    ]
}

fn timbre_fields() -> (t: Vec<(&'static str, &'static str)>)
    ensures
        table_view(t@) == timbre_table(),
{
    let t: Vec<(&'static str, &'static str)> = vec![
        ("fechaTimbrado", "FechaTimbrado"),
        ("rfcProvCertif", "RfcProvCertif"),
        ("noCertificadoSAT", "NoCertificadoSAT"),
        ("selloCFD", "SelloCFD"),
        ("selloSAT", "SelloSAT"),
    ];
    assert(table_view(t@) =~= timbre_table());
    t
}

/// The element children of `parent` named `local`, from position `k` of its
/// child list on, in order.
pub open spec fn children_named_from(ns: NodesView, parent: int, local: Seq<char>, k: int) -> Seq<int>
    decreases ns[parent].3.len() - k,
{
    if k < 0 || k >= ns[parent].3.len() {
        Seq::empty()
    } else {
        let c = ns[parent].3[k] as int;
        let rest = children_named_from(ns, parent, local, k + 1);
        if c < ns.len() && ns[c].0 && ns[c].1 == local {
            seq![c] + rest
        } else {
            rest
        }
    }
}

pub open spec fn ints(v: Seq<usize>) -> Seq<int> {
    v.map_values(|i: usize| i as int)
}

/// The element children of `parent` named `local`.
pub fn children_named(nodes: &Vec<XmlNode>, parent: usize, local: &str) -> (r: Vec<usize>)
    requires
        parent < nodes@.len(),
    ensures
        ints(r@) == children_named_from(nodes_view(nodes@), parent as int, local@, 0),
        forall|i: int| 0 <= i < r@.len() ==> r@[i] < nodes@.len(),
{
    let ghost ns = nodes_view(nodes@);
    let kids = &nodes[parent].children;
    assert(ns[parent as int] == node_view(nodes@[parent as int]));
    let mut r: Vec<usize> = Vec::new();
    let mut k: usize = 0;
    while k < kids.len()
        invariant
            k <= kids@.len(),
            ns == nodes_view(nodes@),
            parent < nodes@.len(),
            kids@ == ns[parent as int].3,
            ints(r@) + children_named_from(ns, parent as int, local@, k as int) == children_named_from(ns, parent as int, local@, 0),
            forall|i: int| 0 <= i < r@.len() ==> r@[i] < nodes@.len(),
        decreases kids.len() - k,
    {
        let c = kids[k];
        let ghost before = r@;
        if c < nodes.len() {
            assert(ns[c as int] == node_view(nodes@[c as int]));
            if nodes[c].element && same_text(nodes[c].name.as_str(), local) {
                r.push(c);
                proof {
                    assert(ints(r@) =~= ints(before).push(c as int));
                    assert(ints(r@) + children_named_from(ns, parent as int, local@, k as int + 1)
                        =~= ints(before) + children_named_from(ns, parent as int, local@, k as int));
                }
            }
        }
        k = k + 1;
    }
    assert(ints(r@) + children_named_from(ns, parent as int, local@, k as int) =~= ints(r@));
    r
}

/// The `Traslado` elements under a node's `Impuestos`/`Traslados` (or under
/// its own `Traslados` when `direct`).
pub open spec fn traslado_nodes(ns: NodesView, node: int, direct: bool) -> Seq<int> {
    let holder = if direct {
        Some(node)
    } else {
        child_from(ns, node, "Impuestos"@, 0)
    };
    match holder {
        None => Seq::empty(),
        Some(h) => match child_from(ns, h, "Traslados"@, 0) {
            None => Seq::empty(),
            Some(t) => children_named_from(ns, t, "Traslado"@, 0),
        },
    }
}

pub open spec fn traslados_spec(ns: NodesView, list: Seq<int>) -> Seq<Seq<(Seq<char>, Seq<char>)>> {
    Seq::new(list.len(), |i: int| fields_spec(ns, Some(list[i]), traslado_table()))
}

pub open spec fn traslados_view(v: Seq<Vec<(String, String)>>) -> Seq<Seq<(Seq<char>, Seq<char>)>> {
    v.map_values(|t: Vec<(String, String)>| pairs_view(t@))
}

proof fn lemma_child_in_range(ns: NodesView, parent: int, local: Seq<char>, k: int)
    requires
        0 <= parent < ns.len(),
    ensures
        child_from(ns, parent, local, k) matches Some(c) ==> 0 <= c < ns.len(),
    decreases ns[parent].3.len() - k,
{
    if 0 <= k < ns[parent].3.len() {
        lemma_child_in_range(ns, parent, local, k + 1);
    }
}

fn read_traslados(nodes: &Vec<XmlNode>, node: usize, direct: bool) -> (r: Vec<Vec<(String, String)>>)
    requires
        node < nodes@.len(),
    ensures
        traslados_view(r@) == traslados_spec(nodes_view(nodes@), traslado_nodes(nodes_view(nodes@), node as int, direct)),
{
    let ghost ns = nodes_view(nodes@);
    let holder = if direct {
        Some(node)
    } else {
        child(nodes, node, "Impuestos")
    };
    let list: Vec<usize> = match holder {
        None => Vec::new(),
        Some(h) => match child(nodes, h, "Traslados") {
            None => Vec::new(),
            Some(t) => children_named(nodes, t, "Traslado"),
        },
    };
    assert(ints(list@) == traslado_nodes(ns, node as int, direct)) by {
        if holder is None || child_from(ns, holder->0 as int, "Traslados"@, 0) is None {
            assert(ints(list@) =~= Seq::<int>::empty());
        }
    }
    let table = traslado_fields();
    let ghost spec = traslados_spec(ns, ints(list@));
    let mut r: Vec<Vec<(String, String)>> = Vec::new();
    let mut i: usize = 0;
    while i < list.len()
        invariant
            i <= list@.len(),
            ns == nodes_view(nodes@),
            forall|j: int| 0 <= j < list@.len() ==> list@[j] < nodes@.len(),
            table_view(table@) == traslado_table(),
            spec == traslados_spec(ns, ints(list@)),
            traslados_view(r@) == spec.subrange(0, i as int),
        decreases list.len() - i,
    {
        let fields = read_fields(nodes, Some(list[i]), &table);
        let ghost before = r@;
        r.push(fields);
        proof {
            assert(traslados_view(r@) =~= traslados_view(before).push(pairs_view(fields@)));
            assert(spec.subrange(0, i as int + 1) =~= spec.subrange(0, i as int).push(spec[i as int]));
        }
        i = i + 1;
    }
    assert(spec.subrange(0, spec.len() as int) =~= spec);
    r
}

/// One line of an invoice: its fields and its transferred taxes.
#[derive(Debug, Clone)]
pub struct CfdiConcepto {
    pub fields: Vec<(String, String)>,
    pub traslados: Vec<Vec<(String, String)>>,
}

/// The tax summary of an invoice: its total of transferred taxes and the taxes.
#[derive(Debug, Clone)]
pub struct CfdiImpuestos {
    pub total_impuestos_trasladados: String,
    pub traslados: Vec<Vec<(String, String)>>,
}

/// Everything the import stores of a CFDI.
#[derive(Debug, Clone)]
pub struct CfdiRecord {
    pub summary: ImportedCfdi,
    pub comprobante: Vec<(String, String)>,
    pub emisor: Vec<(String, String)>,
    pub receptor: Vec<(String, String)>,
    pub conceptos: Vec<CfdiConcepto>,
    pub impuestos: Option<CfdiImpuestos>,
    pub timbre: Vec<(String, String)>,
}

pub open spec fn concepto_view(c: CfdiConcepto) -> (Seq<(Seq<char>, Seq<char>)>, Seq<Seq<(Seq<char>, Seq<char>)>>) {
    (pairs_view(c.fields@), traslados_view(c.traslados@))
}

pub open spec fn concepto_spec(ns: NodesView, c: int) -> (Seq<(Seq<char>, Seq<char>)>, Seq<Seq<(Seq<char>, Seq<char>)>>) {
    (fields_spec(ns, Some(c), concepto_table()), traslados_spec(ns, traslado_nodes(ns, c, false)))
}

/// The `Concepto` elements under the root's `Conceptos`.
pub open spec fn concepto_nodes(ns: NodesView, root: int) -> Seq<int> {
    match child_from(ns, root, "Conceptos"@, 0) {
        None => Seq::empty(),
        Some(c) => children_named_from(ns, c, "Concepto"@, 0),
    }
}

pub open spec fn impuestos_view(i: Option<CfdiImpuestos>) -> Option<(Seq<char>, Seq<Seq<(Seq<char>, Seq<char>)>>)> {
    match i {
        Some(v) => Some((v.total_impuestos_trasladados@, traslados_view(v.traslados@))),
        None => None,
    }
}

pub open spec fn impuestos_spec(ns: NodesView, root: int) -> Option<(Seq<char>, Seq<Seq<(Seq<char>, Seq<char>)>>)> {
    match child_from(ns, root, "Impuestos"@, 0) {
        None => None,
        Some(i) => Some((attr_or(ns, Some(i), "TotalImpuestosTrasladados"@, ""@), traslados_spec(ns, traslado_nodes(ns, i, true)))),
    }
}

/// The stamp: its version, the UUID in lower case, then the other fields.
pub open spec fn timbre_spec(ns: NodesView, tfd: int, uuid: Seq<char>) -> Seq<(Seq<char>, Seq<char>)> {
    seq![("version"@, attr_or(ns, Some(tfd), "Version"@, ""@)), ("uuid"@, uuid)] + fields_spec(ns, Some(tfd), timbre_table())
}

/// What a stored CFDI record holds, given its nodes, when the summary can be read.
pub open spec fn record_matches(r: CfdiRecord, ns: NodesView) -> bool {
    let root = first_element_from(ns, 0)->0;
    let tfd = element_from(ns, "TimbreFiscalDigital"@, root)->0;
    let conceptos = concepto_nodes(ns, root);
    &&& cfdi_summary_spec(ns) == Ok::<_, Seq<char>>(imported_view(r.summary))
    &&& pairs_view(r.comprobante@) == fields_spec(ns, Some(root), comprobante_table())
    &&& pairs_view(r.emisor@) == fields_spec(ns, child_from(ns, root, "Emisor"@, 0), emisor_table())
    &&& pairs_view(r.receptor@) == fields_spec(ns, child_from(ns, root, "Receptor"@, 0), receptor_table())
    &&& r.conceptos@.len() == conceptos.len()
    &&& forall|i: int| 0 <= i < conceptos.len() ==> #[trigger] concepto_view(r.conceptos@[i]) == concepto_spec(ns, conceptos[i])
    &&& impuestos_view(r.impuestos) == impuestos_spec(ns, root)
    &&& pairs_view(r.timbre@) == timbre_spec(ns, tfd, r.summary.uuid@)
}

/// Reads the whole stored record of a CFDI from its XML nodes; it is refused
/// exactly when its summary is.
pub fn parse_cfdi_record(nodes: &Vec<XmlNode>) -> (r: Result<CfdiRecord, String>)
    ensures
        match cfdi_summary_spec(nodes_view(nodes@)) {
            Err(m) => r matches Err(e) && e@ == m,
            Ok(_) => r matches Ok(rec) && record_matches(rec, nodes_view(nodes@)),
        },
{
    let ghost ns = nodes_view(nodes@);
    let summary = parse_cfdi(nodes)?;
    let root = match crate::cfdi::root_element(nodes) {
        Some(r) => r,
        None => return Err(String::from_str("Root element is not cfdi:Comprobante")),
    };
    let tfd = match crate::cfdi::element_after(nodes, root, "TimbreFiscalDigital") {
        Some(t) => t,
        None => return Err(String::from_str("TimbreFiscalDigital not found — maybe not a timbrado CFDI")),
    };
    proof {
        lemma_child_in_range(ns, root as int, "Emisor"@, 0);
        lemma_child_in_range(ns, root as int, "Receptor"@, 0);
    }
    let comprobante = read_fields(nodes, Some(root), &comprobante_fields());
    let emisor = read_fields(nodes, child(nodes, root, "Emisor"), &emisor_fields());
    let receptor = read_fields(nodes, child(nodes, root, "Receptor"), &receptor_fields());
    let list: Vec<usize> = match child(nodes, root, "Conceptos") {
        None => Vec::new(),
        Some(c) => children_named(nodes, c, "Concepto"),
    };
    assert(ints(list@) == concepto_nodes(ns, root as int)) by {
        if child_from(ns, root as int, "Conceptos"@, 0) is None {
            assert(ints(list@) =~= Seq::<int>::empty());
        }
    }
    let table = concepto_fields();
    let mut conceptos: Vec<CfdiConcepto> = Vec::new();
    let mut i: usize = 0;
    while i < list.len()
        invariant
            i <= list@.len(),
            ns == nodes_view(nodes@),
            forall|j: int| 0 <= j < list@.len() ==> list@[j] < nodes@.len(),
            table_view(table@) == concepto_table(),
            conceptos@.len() == i,
            forall|j: int| 0 <= j < i ==> #[trigger] concepto_view(conceptos@[j]) == concepto_spec(ns, ints(list@)[j]),
        decreases list.len() - i,
    {
        let fields = read_fields(nodes, Some(list[i]), &table);
        let traslados = read_traslados(nodes, list[i], false);
        conceptos.push(CfdiConcepto { fields, traslados });
        i = i + 1;
    }
    let impuestos = match child(nodes, root, "Impuestos") {
        None => None,
        Some(imp) => Some(CfdiImpuestos {
            total_impuestos_trasladados: attr_string(nodes, Some(imp), "TotalImpuestosTrasladados", ""),
            traslados: read_traslados(nodes, imp, true),
        }),
    };
    let mut timbre: Vec<(String, String)> = Vec::new();
    timbre.push((String::from_str("version"), attr_string(nodes, Some(tfd), "Version", "")));
    timbre.push((String::from_str("uuid"), summary.uuid.clone()));
    let rest = read_fields(nodes, Some(tfd), &timbre_fields());
    let ghost head = timbre@;
    let mut k: usize = 0;
    while k < rest.len()
        invariant
            k <= rest@.len(),
            pairs_view(timbre@) == pairs_view(head) + pairs_view(rest@).subrange(0, k as int),
        decreases rest.len() - k,
    {
        let ghost before = timbre@;
        timbre.push((rest[k].0.clone(), rest[k].1.clone()));
        proof {
            assert(pairs_view(timbre@) =~= pairs_view(before).push(pairs_view(rest@)[k as int]));
            assert(pairs_view(rest@).subrange(0, k as int + 1) =~= pairs_view(rest@).subrange(0, k as int).push(pairs_view(rest@)[k as int]));
        }
        k = k + 1;
    }
    proof {
        assert(pairs_view(rest@).subrange(0, rest@.len() as int) =~= pairs_view(rest@));
        assert(pairs_view(timbre@) =~= timbre_spec(ns, tfd as int, summary.uuid@));
    }
    Ok(CfdiRecord { summary, comprobante, emisor, receptor, conceptos, impuestos, timbre })
}

/// The value stored under `key` among the pairs from position `i` on (the
/// first such pair), blank when there is none.
pub open spec fn stored_from(pairs: Seq<(Seq<char>, Seq<char>)>, key: Seq<char>, i: int) -> Seq<char>
    decreases pairs.len() - i,
{
    if i < 0 || i >= pairs.len() {
        ""@
    } else if pairs[i].0 == key {
        pairs[i].1
    } else {
        stored_from(pairs, key, i + 1)
    }
}

/// The value a stored part of a CFDI keeps under `key`, blank when it keeps none.
pub fn stored_value(pairs: &Vec<(String, String)>, key: &str) -> (r: String)
    ensures
        r@ == stored_from(pairs_view(pairs@), key@, 0),
{
    let ghost pv = pairs_view(pairs@);
    let mut i: usize = 0;
    while i < pairs.len()
        invariant
            i <= pairs@.len(),
            pv == pairs_view(pairs@),
            stored_from(pv, key@, 0) == stored_from(pv, key@, i as int),
        decreases pairs.len() - i,
    {
        assert(pv[i as int] == (pairs@[i as int].0@, pairs@[i as int].1@));
        if same_text(pairs[i].0.as_str(), key) {
            return pairs[i].1.clone();
        }
        i = i + 1;
    }
    String::from_str("")
}

/// One line of the CFDI listing.
#[derive(Debug, Clone)]
pub struct CfdiRow {
    pub uuid: String,
    pub tipo: String,
    pub emisor_rfc: String,
    pub emisor_nombre: String,
    pub receptor_rfc: String,
    pub receptor_nombre: String,
    pub total: String,
    pub moneda: String,
    pub fecha: String,
}

pub open spec fn row_view(r: CfdiRow) -> (Seq<char>, Seq<char>, Seq<char>, Seq<char>, Seq<char>, Seq<char>, Seq<char>, Seq<char>, Seq<char>) {
    (r.uuid@, r.tipo@, r.emisor_rfc@, r.emisor_nombre@, r.receptor_rfc@, r.receptor_nombre@, r.total@, r.moneda@, r.fecha@)
}

/// The listing line of a stored CFDI: its UUID; kind, total, currency and
/// date from the voucher part; RFC and name of issuer and receiver; each
/// blank when the stored part lacks it.
pub open spec fn cfdi_row_spec(rec: CfdiRecord) -> (Seq<char>, Seq<char>, Seq<char>, Seq<char>, Seq<char>, Seq<char>, Seq<char>, Seq<char>, Seq<char>) {
    let comp = pairs_view(rec.comprobante@);
    let emisor = pairs_view(rec.emisor@);
    let receptor = pairs_view(rec.receptor@);
    (
        rec.summary.uuid@,
        stored_from(comp, "tipoDeComprobante"@, 0),
        stored_from(emisor, "rfc"@, 0),
        stored_from(emisor, "nombre"@, 0),
        stored_from(receptor, "rfc"@, 0),
        stored_from(receptor, "nombre"@, 0),
        stored_from(comp, "total"@, 0),
        stored_from(comp, "moneda"@, 0),
        stored_from(comp, "fecha"@, 0),
    )
}

/// The listing line of a stored CFDI.
pub fn cfdi_row(rec: &CfdiRecord) -> (r: CfdiRow)
    ensures
        row_view(r) == cfdi_row_spec(*rec),
{
    CfdiRow {
        uuid: rec.summary.uuid.clone(),
        tipo: stored_value(&rec.comprobante, "tipoDeComprobante"),
        emisor_rfc: stored_value(&rec.emisor, "rfc"),
        emisor_nombre: stored_value(&rec.emisor, "nombre"),
        receptor_rfc: stored_value(&rec.receptor, "rfc"),
        receptor_nombre: stored_value(&rec.receptor, "nombre"),
        total: stored_value(&rec.comprobante, "total"),
        moneda: stored_value(&rec.comprobante, "moneda"),
        fecha: stored_value(&rec.comprobante, "fecha"),
    }
}

/// The listing line of an imported CFDI agrees with its import summary on
/// the UUID, the kind, the date and the RFC and name of issuer and receiver.
pub proof fn lemma_row_agrees_with_summary(rec: CfdiRecord, ns: NodesView)
    requires
        record_matches(rec, ns),
    ensures
        cfdi_row_spec(rec).0 == rec.summary.uuid@,
        cfdi_row_spec(rec).1 == rec.summary.tipo_de_comprobante@,
        cfdi_row_spec(rec).2 == rec.summary.emisor_rfc@,
        cfdi_row_spec(rec).3 == rec.summary.emisor_nombre@,
        cfdi_row_spec(rec).4 == rec.summary.receptor_rfc@,
        cfdi_row_spec(rec).5 == rec.summary.receptor_nombre@,
        cfdi_row_spec(rec).8 == rec.summary.fecha@,
{
    reveal_strlit("version");
    reveal_strlit("folio");
    reveal_strlit("fecha");
    reveal_strlit("formaPago");
    reveal_strlit("metodoPago");
    reveal_strlit("tipoDeComprobante");
    reveal_strlit("rfc");
    reveal_strlit("nombre");
    let root = first_element_from(ns, 0)->0;
    let comp = pairs_view(rec.comprobante@);
    let emisor = pairs_view(rec.emisor@);
    let receptor = pairs_view(rec.receptor@);
    let t = comprobante_table();
    assert(t[0].0 == "version"@ && t[1].0 == "folio"@ && t[2].0 == "fecha"@);
    assert(t[3].0 == "formaPago"@ && t[4].0 == "metodoPago"@ && t[5].0 == "tipoDeComprobante"@);
    assert(comp[0].0 == t[0].0 && comp[1].0 == t[1].0 && comp[2].0 == t[2].0);
    assert(comp[3].0 == t[3].0 && comp[4].0 == t[4].0 && comp[5].0 == t[5].0);
    assert(emisor[0].0 == "rfc"@ && emisor[1].0 == "nombre"@);
    assert(receptor[0].0 == "rfc"@ && receptor[1].0 == "nombre"@);
    assert("version"@.len() == 7 && "fecha"@.len() == 5 && "folio"@[1] == 'o' && "fecha"@[1] == 'e');
    assert("formaPago"@.len() == 9 && "metodoPago"@.len() == 10 && "tipoDeComprobante"@.len() == 17);
    assert("rfc"@.len() == 3 && "nombre"@.len() == 6);
    assert(comp[0].0 != "fecha"@ && comp[1].0 != "fecha"@);
    assert(t.len() == 14 && comp.len() == 14);
    assert(stored_from(comp, "fecha"@, 2) == comp[2].1);
    assert(stored_from(comp, "fecha"@, 1) == comp[2].1);
    assert(stored_from(comp, "fecha"@, 0) == comp[2].1);
    assert(comp[2].0 != "tipoDeComprobante"@ && comp[3].0 != "tipoDeComprobante"@ && comp[4].0 != "tipoDeComprobante"@);
    assert(stored_from(comp, "tipoDeComprobante"@, 5) == comp[5].1);
    assert(stored_from(comp, "tipoDeComprobante"@, 4) == comp[5].1);
    assert(stored_from(comp, "tipoDeComprobante"@, 3) == comp[5].1);
    assert(stored_from(comp, "tipoDeComprobante"@, 2) == comp[5].1);
    assert(stored_from(comp, "tipoDeComprobante"@, 1) == comp[5].1);
    assert(stored_from(comp, "tipoDeComprobante"@, 0) == comp[5].1);
    assert(emisor[0].0 != "nombre"@ && emisor.len() == 3);
    assert(stored_from(emisor, "nombre"@, 1) == emisor[1].1);
    assert(stored_from(emisor, "nombre"@, 0) == emisor[1].1);
    assert(receptor[0].0 != "nombre"@ && receptor.len() == 5);
    assert(stored_from(receptor, "nombre"@, 1) == receptor[1].1);
    assert(stored_from(receptor, "nombre"@, 0) == receptor[1].1);
}

/// The attribute `name` of a node of the document, blank when the node lacks it.
pub open spec fn attribute_of(ns: NodesView, node: Option<int>, name: Seq<char>) -> Seq<char> {
    attr_or(ns, node, name, ""@)
}

/// The stored voucher part of an imported CFDI keeps, key by key, the root
/// element's attribute of the matching SAT name: `version` from `Version`,
/// `formaPago` from `FormaPago`, `metodoPago` from `MetodoPago`, and so on,
/// each blank when the root lacks it.
pub proof fn lemma_record_comprobante_attributes(rec: CfdiRecord, ns: NodesView)
    requires
        record_matches(rec, ns),
    ensures
        pairs_view(rec.comprobante@) == seq![
            ("version"@, attribute_of(ns, Some(first_element_from(ns, 0)->0), "Version"@)),
            ("folio"@, attribute_of(ns, Some(first_element_from(ns, 0)->0), "Folio"@)),
            ("fecha"@, attribute_of(ns, Some(first_element_from(ns, 0)->0), "Fecha"@)),
            ("formaPago"@, attribute_of(ns, Some(first_element_from(ns, 0)->0), "FormaPago"@)),
            ("metodoPago"@, attribute_of(ns, Some(first_element_from(ns, 0)->0), "MetodoPago"@)),
            ("tipoDeComprobante"@, attribute_of(ns, Some(first_element_from(ns, 0)->0), "TipoDeComprobante"@)),
            ("exportacion"@, attribute_of(ns, Some(first_element_from(ns, 0)->0), "Exportacion"@)),
            ("moneda"@, attribute_of(ns, Some(first_element_from(ns, 0)->0), "Moneda"@)),
            ("subTotal"@, attribute_of(ns, Some(first_element_from(ns, 0)->0), "SubTotal"@)),
            ("total"@, attribute_of(ns, Some(first_element_from(ns, 0)->0), "Total"@)),
            ("lugarExpedicion"@, attribute_of(ns, Some(first_element_from(ns, 0)->0), "LugarExpedicion"@)),
            ("noCertificado"@, attribute_of(ns, Some(first_element_from(ns, 0)->0), "NoCertificado"@)),
            ("sello"@, attribute_of(ns, Some(first_element_from(ns, 0)->0), "Sello"@)),
            ("certificado"@, attribute_of(ns, Some(first_element_from(ns, 0)->0), "Certificado"@)),
        ],
{
    let root = Some(first_element_from(ns, 0)->0);
    assert(pairs_view(rec.comprobante@) =~= seq![
        ("version"@, attribute_of(ns, root, "Version"@)),
        ("folio"@, attribute_of(ns, root, "Folio"@)),
        ("fecha"@, attribute_of(ns, root, "Fecha"@)),
        ("formaPago"@, attribute_of(ns, root, "FormaPago"@)),
        ("metodoPago"@, attribute_of(ns, root, "MetodoPago"@)),
        ("tipoDeComprobante"@, attribute_of(ns, root, "TipoDeComprobante"@)),
        ("exportacion"@, attribute_of(ns, root, "Exportacion"@)),
        ("moneda"@, attribute_of(ns, root, "Moneda"@)),
        ("subTotal"@, attribute_of(ns, root, "SubTotal"@)),
        ("total"@, attribute_of(ns, root, "Total"@)),
        ("lugarExpedicion"@, attribute_of(ns, root, "LugarExpedicion"@)),
        ("noCertificado"@, attribute_of(ns, root, "NoCertificado"@)),
        ("sello"@, attribute_of(ns, root, "Sello"@)),
        ("certificado"@, attribute_of(ns, root, "Certificado"@)),
    ]);
}

/// The stored issuer and receiver parts of an imported CFDI keep, key by key,
/// the attributes of the root's `Emisor` and `Receptor` children: `rfc` from
/// `Rfc`, `nombre` from `Nombre`, the issuer's `regimenFiscal` from
/// `RegimenFiscal`, the receiver's `domicilioFiscal` from
/// `DomicilioFiscalReceptor`, `regimenFiscal` from `RegimenFiscalReceptor` and
/// `usoCFDI` from `UsoCFDI`; blank where the child or the attribute is missing.
pub proof fn lemma_record_party_attributes(rec: CfdiRecord, ns: NodesView)
    requires
        record_matches(rec, ns),
    ensures
        pairs_view(rec.emisor@) == seq![
            ("rfc"@, attribute_of(ns, child_from(ns, first_element_from(ns, 0)->0, "Emisor"@, 0), "Rfc"@)),
            ("nombre"@, attribute_of(ns, child_from(ns, first_element_from(ns, 0)->0, "Emisor"@, 0), "Nombre"@)),
            ("regimenFiscal"@, attribute_of(ns, child_from(ns, first_element_from(ns, 0)->0, "Emisor"@, 0), "RegimenFiscal"@)),
        ],
        pairs_view(rec.receptor@) == seq![
            ("rfc"@, attribute_of(ns, child_from(ns, first_element_from(ns, 0)->0, "Receptor"@, 0), "Rfc"@)),
            ("nombre"@, attribute_of(ns, child_from(ns, first_element_from(ns, 0)->0, "Receptor"@, 0), "Nombre"@)),
            ("domicilioFiscal"@, attribute_of(ns, child_from(ns, first_element_from(ns, 0)->0, "Receptor"@, 0), "DomicilioFiscalReceptor"@)),
            ("regimenFiscal"@, attribute_of(ns, child_from(ns, first_element_from(ns, 0)->0, "Receptor"@, 0), "RegimenFiscalReceptor"@)),
            ("usoCFDI"@, attribute_of(ns, child_from(ns, first_element_from(ns, 0)->0, "Receptor"@, 0), "UsoCFDI"@)),
        ],
{
    let root = first_element_from(ns, 0)->0;
    let e = child_from(ns, root, "Emisor"@, 0);
    let r = child_from(ns, root, "Receptor"@, 0);
    assert(pairs_view(rec.emisor@) =~= seq![
        ("rfc"@, attribute_of(ns, e, "Rfc"@)),
        ("nombre"@, attribute_of(ns, e, "Nombre"@)),
        ("regimenFiscal"@, attribute_of(ns, e, "RegimenFiscal"@)),
    ]);
    assert(pairs_view(rec.receptor@) =~= seq![
        ("rfc"@, attribute_of(ns, r, "Rfc"@)),
        ("nombre"@, attribute_of(ns, r, "Nombre"@)),
        ("domicilioFiscal"@, attribute_of(ns, r, "DomicilioFiscalReceptor"@)),
        ("regimenFiscal"@, attribute_of(ns, r, "RegimenFiscalReceptor"@)),
        ("usoCFDI"@, attribute_of(ns, r, "UsoCFDI"@)),
    ]);
}

/// The stored stamp of an imported CFDI keeps its `Version`, the summary's
/// UUID, then `fechaTimbrado` from `FechaTimbrado`, `rfcProvCertif` from
/// `RfcProvCertif`, `noCertificadoSAT` from `NoCertificadoSAT`, `selloCFD`
/// from `SelloCFD` and `selloSAT` from `SelloSAT` of the
/// `TimbreFiscalDigital` element.
pub proof fn lemma_record_timbre_attributes(rec: CfdiRecord, ns: NodesView)
    requires
        record_matches(rec, ns),
    ensures
        pairs_view(rec.timbre@) == seq![
            ("version"@, attribute_of(ns, Some(element_from(ns, "TimbreFiscalDigital"@, first_element_from(ns, 0)->0)->0), "Version"@)),
            ("uuid"@, rec.summary.uuid@),
            ("fechaTimbrado"@, attribute_of(ns, Some(element_from(ns, "TimbreFiscalDigital"@, first_element_from(ns, 0)->0)->0), "FechaTimbrado"@)),
            ("rfcProvCertif"@, attribute_of(ns, Some(element_from(ns, "TimbreFiscalDigital"@, first_element_from(ns, 0)->0)->0), "RfcProvCertif"@)),
            ("noCertificadoSAT"@, attribute_of(ns, Some(element_from(ns, "TimbreFiscalDigital"@, first_element_from(ns, 0)->0)->0), "NoCertificadoSAT"@)),
            ("selloCFD"@, attribute_of(ns, Some(element_from(ns, "TimbreFiscalDigital"@, first_element_from(ns, 0)->0)->0), "SelloCFD"@)),
            ("selloSAT"@, attribute_of(ns, Some(element_from(ns, "TimbreFiscalDigital"@, first_element_from(ns, 0)->0)->0), "SelloSAT"@)),
        ],
{
    let t = Some(element_from(ns, "TimbreFiscalDigital"@, first_element_from(ns, 0)->0)->0);
    assert(pairs_view(rec.timbre@) =~= seq![
        ("version"@, attribute_of(ns, t, "Version"@)),
        ("uuid"@, rec.summary.uuid@),
        ("fechaTimbrado"@, attribute_of(ns, t, "FechaTimbrado"@)),
        ("rfcProvCertif"@, attribute_of(ns, t, "RfcProvCertif"@)),
        ("noCertificadoSAT"@, attribute_of(ns, t, "NoCertificadoSAT"@)),
        ("selloCFD"@, attribute_of(ns, t, "SelloCFD"@)),
        ("selloSAT"@, attribute_of(ns, t, "SelloSAT"@)),
    ]);
}

/// Each stored line of an imported CFDI keeps, key by key, the attributes of
/// its `Concepto` element: `claveProdServ` from `ClaveProdServ`, `claveUnidad`
/// from `ClaveUnidad`, `cantidad` from `Cantidad`, `noIdentificacion` from
/// `NoIdentificacion`, `descripcion` from `Descripcion`, `valorUnitario` from
/// `ValorUnitario`, `importe` from `Importe` and `objetoImp` from `ObjetoImp`.
pub proof fn lemma_record_concepto_attributes(rec: CfdiRecord, ns: NodesView, i: int)
    requires
        record_matches(rec, ns),
        0 <= i < rec.conceptos@.len(),
    ensures
        pairs_view(rec.conceptos@[i].fields@) == seq![
            ("claveProdServ"@, attribute_of(ns, Some(concepto_nodes(ns, first_element_from(ns, 0)->0)[i]), "ClaveProdServ"@)),
            ("claveUnidad"@, attribute_of(ns, Some(concepto_nodes(ns, first_element_from(ns, 0)->0)[i]), "ClaveUnidad"@)),
            ("cantidad"@, attribute_of(ns, Some(concepto_nodes(ns, first_element_from(ns, 0)->0)[i]), "Cantidad"@)),
            ("noIdentificacion"@, attribute_of(ns, Some(concepto_nodes(ns, first_element_from(ns, 0)->0)[i]), "NoIdentificacion"@)),
            ("descripcion"@, attribute_of(ns, Some(concepto_nodes(ns, first_element_from(ns, 0)->0)[i]), "Descripcion"@)),
            ("valorUnitario"@, attribute_of(ns, Some(concepto_nodes(ns, first_element_from(ns, 0)->0)[i]), "ValorUnitario"@)),
            ("importe"@, attribute_of(ns, Some(concepto_nodes(ns, first_element_from(ns, 0)->0)[i]), "Importe"@)),
            ("objetoImp"@, attribute_of(ns, Some(concepto_nodes(ns, first_element_from(ns, 0)->0)[i]), "ObjetoImp"@)),
        ],
{
    let c = Some(concepto_nodes(ns, first_element_from(ns, 0)->0)[i]);
    assert(concepto_view(rec.conceptos@[i]) == concepto_spec(ns, concepto_nodes(ns, first_element_from(ns, 0)->0)[i]));
    assert(pairs_view(rec.conceptos@[i].fields@) =~= seq![
        ("claveProdServ"@, attribute_of(ns, c, "ClaveProdServ"@)),
        ("claveUnidad"@, attribute_of(ns, c, "ClaveUnidad"@)),
        ("cantidad"@, attribute_of(ns, c, "Cantidad"@)),
        ("noIdentificacion"@, attribute_of(ns, c, "NoIdentificacion"@)),
        ("descripcion"@, attribute_of(ns, c, "Descripcion"@)),
        ("valorUnitario"@, attribute_of(ns, c, "ValorUnitario"@)),
        ("importe"@, attribute_of(ns, c, "Importe"@)),
        ("objetoImp"@, attribute_of(ns, c, "ObjetoImp"@)),
    ]);
}

/// Each transferred tax of the invoice's tax summary is stored, key by key,
/// from the attributes of its `Traslado` element: `base` from `Base`,
/// `impuesto` from `Impuesto`, `tipoFactor` from `TipoFactor`, `tasaOCuota`
/// from `TasaOCuota` and `importe` from `Importe`.
pub proof fn lemma_record_traslado_attributes(rec: CfdiRecord, ns: NodesView, j: int)
    requires
        record_matches(rec, ns),
        rec.impuestos matches Some(imp) && 0 <= j < imp.traslados@.len(),
    ensures
        pairs_view(rec.impuestos->0.traslados@[j]@) == seq![
            ("base"@, attribute_of(ns, Some(traslado_nodes(ns, child_from(ns, first_element_from(ns, 0)->0, "Impuestos"@, 0)->0, true)[j]), "Base"@)),
            ("impuesto"@, attribute_of(ns, Some(traslado_nodes(ns, child_from(ns, first_element_from(ns, 0)->0, "Impuestos"@, 0)->0, true)[j]), "Impuesto"@)),
            ("tipoFactor"@, attribute_of(ns, Some(traslado_nodes(ns, child_from(ns, first_element_from(ns, 0)->0, "Impuestos"@, 0)->0, true)[j]), "TipoFactor"@)),
            ("tasaOCuota"@, attribute_of(ns, Some(traslado_nodes(ns, child_from(ns, first_element_from(ns, 0)->0, "Impuestos"@, 0)->0, true)[j]), "TasaOCuota"@)),
            ("importe"@, attribute_of(ns, Some(traslado_nodes(ns, child_from(ns, first_element_from(ns, 0)->0, "Impuestos"@, 0)->0, true)[j]), "Importe"@)),
        ],
{
    let imp = rec.impuestos->0;
    let list = traslado_nodes(ns, child_from(ns, first_element_from(ns, 0)->0, "Impuestos"@, 0)->0, true);
    let t = Some(list[j]);
    assert(child_from(ns, first_element_from(ns, 0)->0, "Impuestos"@, 0) is Some);
    assert(traslados_view(imp.traslados@) == traslados_spec(ns, list));
    assert(traslados_view(imp.traslados@).len() == imp.traslados@.len());
    assert(traslados_view(imp.traslados@)[j] == pairs_view(imp.traslados@[j]@));
    assert(traslados_spec(ns, list)[j] == fields_spec(ns, t, traslado_table()));
    assert(pairs_view(imp.traslados@[j]@) =~= seq![
        ("base"@, attribute_of(ns, t, "Base"@)),
        ("impuesto"@, attribute_of(ns, t, "Impuesto"@)),
        ("tipoFactor"@, attribute_of(ns, t, "TipoFactor"@)),
        ("tasaOCuota"@, attribute_of(ns, t, "TasaOCuota"@)),
        ("importe"@, attribute_of(ns, t, "Importe"@)),
    ]);
}

/// The summary of a CFDI is read only from a `Comprobante` root that holds a
/// `TimbreFiscalDigital` with a `UUID`; then its UUID is that attribute in
/// lower case, its kind the root's `TipoDeComprobante`, its total the root's
/// `Total` ("0" when absent), its date the root's `Fecha`, and the RFC and
/// name of issuer and receiver the `Rfc` and `Nombre` of the root's `Emisor`
/// and `Receptor` children (blank when absent).
pub proof fn lemma_summary_attributes(ns: NodesView)
    ensures
        cfdi_summary_spec(ns) is Ok <==> {
            &&& first_element_from(ns, 0) is Some
            &&& ns[first_element_from(ns, 0)->0].1 == "Comprobante"@
            &&& element_from(ns, "TimbreFiscalDigital"@, first_element_from(ns, 0)->0) is Some
            &&& attr_from(ns[element_from(ns, "TimbreFiscalDigital"@, first_element_from(ns, 0)->0)->0].2, "UUID"@, 0) is Some
        },
        cfdi_summary_spec(ns) matches Ok(s) ==> {
            &&& s.0 == lowercase_text(attr_from(ns[element_from(ns, "TimbreFiscalDigital"@, first_element_from(ns, 0)->0)->0].2, "UUID"@, 0)->0)
            &&& s.1 == attr_or(ns, Some(first_element_from(ns, 0)->0), "TipoDeComprobante"@, ""@)
            &&& s.2 == attr_or(ns, Some(first_element_from(ns, 0)->0), "Total"@, "0"@)
            &&& s.3 == attr_or(ns, Some(first_element_from(ns, 0)->0), "Fecha"@, ""@)
            &&& s.4 == attr_or(ns, child_from(ns, first_element_from(ns, 0)->0, "Emisor"@, 0), "Rfc"@, ""@)
            &&& s.5 == attr_or(ns, child_from(ns, first_element_from(ns, 0)->0, "Emisor"@, 0), "Nombre"@, ""@)
            &&& s.6 == attr_or(ns, child_from(ns, first_element_from(ns, 0)->0, "Receptor"@, 0), "Rfc"@, ""@)
            &&& s.7 == attr_or(ns, child_from(ns, first_element_from(ns, 0)->0, "Receptor"@, 0), "Nombre"@, ""@)
        },
{
}

} // verus!
