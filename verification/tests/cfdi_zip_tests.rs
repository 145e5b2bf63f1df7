use std::io::Write;

use alfredodev::cfdi::{read_cfdi_xml, XmlNode};
use alfredodev::cfdi_record::{cfdi_row, parse_cfdi_record, stored_value};
use alfredodev::cfdi_zip::{import_xml, import_zip, zip_xml_files};

const FULL_XML: &str = r#"<?xml version="1.0" encoding="UTF-8"?>
<cfdi:Comprobante xmlns:cfdi="http://www.sat.gob.mx/cfd/4" xmlns:tfd="http://www.sat.gob.mx/TimbreFiscalDigital" Version="4.0" Folio="77" Fecha="2024-05-01T10:00:00" SubTotal="1000.00" Total="1160.00" TipoDeComprobante="I" Moneda="MXN">
  <cfdi:Emisor Rfc="AAA010101AAA" Nombre="Emisor SA" RegimenFiscal="601"/>
  <cfdi:Receptor Rfc="BBB010101BBB" Nombre="Cliente SA" UsoCFDI="G03"/>
  <cfdi:Conceptos>
    <cfdi:Concepto ClaveProdServ="81111500" Cantidad="1" Descripcion="Desarrollo" ValorUnitario="1000.00" Importe="1000.00">
      <cfdi:Impuestos>
        <cfdi:Traslados>
          <cfdi:Traslado Base="1000.00" Impuesto="002" TipoFactor="Tasa" TasaOCuota="0.160000" Importe="160.00"/>
        </cfdi:Traslados>
      </cfdi:Impuestos>
    </cfdi:Concepto>
    <cfdi:Concepto ClaveProdServ="81111501" Cantidad="2" Descripcion="Soporte"/>
  </cfdi:Conceptos>
  <cfdi:Impuestos TotalImpuestosTrasladados="160.00">
    <cfdi:Traslados>
      <cfdi:Traslado Base="1000.00" Impuesto="002" Importe="160.00"/>
    </cfdi:Traslados>
  </cfdi:Impuestos>
  <cfdi:Complemento>
    <tfd:TimbreFiscalDigital Version="1.1" UUID="ABCDEF12-3456-7890-ABCD-EF1234567890" FechaTimbrado="2024-05-01T10:05:00"/>
  </cfdi:Complemento>
</cfdi:Comprobante>"#;

fn field<'a>(fields: &'a [(String, String)], key: &str) -> &'a str {
    fields.iter().find(|(k, _)| k == key).map(|(_, v)| v.as_str()).unwrap()
}

fn zip_of(entries: &[(&str, &[u8])]) -> Vec<u8> {
    let mut writer = zip::ZipWriter::new(std::io::Cursor::new(Vec::new()));
    for (name, content) in entries {
        writer.start_file(*name, zip::write::SimpleFileOptions::default()).unwrap();
        writer.write_all(content).unwrap();
    }
    writer.finish().unwrap().into_inner()
}

#[test]
fn cfdi_record_keeps_every_part_of_the_document() {
    let (nodes, _) = read_cfdi_xml(FULL_XML).unwrap();
    let rec = parse_cfdi_record(&nodes).unwrap();
    assert_eq!(rec.summary.uuid, "abcdef12-3456-7890-abcd-ef1234567890");
    assert_eq!(field(&rec.comprobante, "folio"), "77");
    assert_eq!(field(&rec.comprobante, "subTotal"), "1000.00");
    assert_eq!(field(&rec.comprobante, "lugarExpedicion"), "");
    assert_eq!(field(&rec.emisor, "regimenFiscal"), "601");
    assert_eq!(field(&rec.receptor, "usoCFDI"), "G03");
    assert_eq!(rec.conceptos.len(), 2);
    assert_eq!(field(&rec.conceptos[0].fields, "descripcion"), "Desarrollo");
    assert_eq!(rec.conceptos[0].traslados.len(), 1);
    assert_eq!(field(&rec.conceptos[0].traslados[0], "importe"), "160.00");
    assert!(rec.conceptos[1].traslados.is_empty());
    let imp = rec.impuestos.as_ref().unwrap();
    assert_eq!(imp.total_impuestos_trasladados, "160.00");
    assert_eq!(imp.traslados.len(), 1);
    assert_eq!(field(&rec.timbre, "uuid"), "abcdef12-3456-7890-abcd-ef1234567890");
    assert_eq!(field(&rec.timbre, "fechaTimbrado"), "2024-05-01T10:05:00");
}

#[test]
fn cfdi_record_is_refused_with_its_summary() {
    let nodes = vec![XmlNode { element: true, name: "Comprobante".to_string(), attrs: Vec::new(), children: Vec::new() }];
    assert_eq!(
        parse_cfdi_record(&nodes).unwrap_err(),
        "TimbreFiscalDigital not found — maybe not a timbrado CFDI"
    );
    assert_eq!(import_xml("<a>").unwrap_err(), "Parsing CFDI XML");
    assert_eq!(import_xml("<Factura/>").unwrap_err(), "Root element is not cfdi:Comprobante");
    assert_eq!(import_xml(FULL_XML).unwrap().summary.total, "1160.00");
}

#[test]
fn package_keeps_only_xml_files_under_lower_case_names() {
    let bytes = zip_of(&[
        ("A1.XML", FULL_XML.as_bytes()),
        ("notes.txt", b"hola"),
        ("dir/b2.xml", b"<not-a-cfdi/>"),
    ]);
    let files = zip_xml_files(&bytes).unwrap();
    assert_eq!(files.len(), 2);
    assert_eq!(files[0].0, "a1.xml");
    assert_eq!(files[0].1, FULL_XML);
    assert_eq!(files[1], ("dir/b2.xml".to_string(), "<not-a-cfdi/>".to_string()));
}

#[test]
fn package_import_skips_unreadable_cfdis() {
    let bytes = zip_of(&[
        ("bad.xml", b"<Factura/>"),
        ("good.xml", FULL_XML.as_bytes()),
        ("readme.md", b"#"),
    ]);
    let records = import_zip(&bytes).unwrap();
    assert_eq!(records.len(), 1);
    assert_eq!(records[0].summary.uuid, "abcdef12-3456-7890-abcd-ef1234567890");
    assert_eq!(records[0].summary.emisor_nombre, "Emisor SA");
    assert!(import_zip(&zip_of(&[])).unwrap().is_empty());
}

#[test]
fn package_refusals() {
    assert_eq!(zip_xml_files(b"not a zip").unwrap_err(), "Opening ZIP");
    assert_eq!(import_zip(&[]).unwrap_err(), "Opening ZIP");
    let bytes = zip_of(&[("ok.xml", b"<a/>"), ("Bad.Xml", &[0xff, 0xfe, 0x00])]);
    assert_eq!(zip_xml_files(&bytes).unwrap_err(), "Reading bad.xml from ZIP");
    assert_eq!(import_zip(&bytes).unwrap_err(), "Reading bad.xml from ZIP");
    let not_xml = zip_of(&[("Bad.bin", &[0xff, 0xfe, 0x00])]);
    assert!(zip_xml_files(&not_xml).unwrap().is_empty());
}

#[test]
fn listing_row_shows_the_stored_cfdi() {
    let rec = import_xml(FULL_XML).unwrap();
    let row = cfdi_row(&rec);
    assert_eq!(row.uuid, rec.summary.uuid);
    assert_eq!(row.tipo, "I");
    assert_eq!(row.emisor_rfc, rec.summary.emisor_rfc);
    assert_eq!(row.emisor_nombre, "Emisor SA");
    assert_eq!(row.receptor_rfc, "BBB010101BBB");
    assert_eq!(row.receptor_nombre, rec.summary.receptor_nombre);
    assert_eq!(row.total, "1160.00");
    assert_eq!(row.moneda, "MXN");
    assert_eq!(row.fecha, rec.summary.fecha);
}

#[test]
fn stored_values_default_to_blank() {
    let pairs = vec![("a".to_string(), "1".to_string()), ("b".to_string(), "2".to_string()), ("a".to_string(), "3".to_string())];
    assert_eq!(stored_value(&pairs, "a"), "1");
    assert_eq!(stored_value(&pairs, "b"), "2");
    assert_eq!(stored_value(&pairs, "c"), "");
    let rec = import_xml("<Comprobante><TimbreFiscalDigital UUID=\"Q\"/></Comprobante>").unwrap();
    let row = cfdi_row(&rec);
    assert_eq!(row.total, "");
    assert_eq!(rec.summary.total, "0");
    assert_eq!(row.emisor_rfc, "");
}
