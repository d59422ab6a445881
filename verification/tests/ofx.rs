use benefits_ofx::ofx::{
    Ofx, OfxBankAccount, OfxBanking, OfxBankingStatement, OfxCreditCard, OfxCreditCardStatement,
    OfxLedgerBalance, OfxStatement, OfxStatementStatus, OfxTransaction, OfxTransactionVariant,
    OfxTransactions, XML_DECLARATION,
};
use serde::ser::{Serialize, SerializeStruct, Serializer};
use xml::reader::{EventReader, XmlEvent};

fn entry(type_: &str, timestamp: &str, amount: &str, id: &str, description: &str) -> OfxTransactionVariant {
    OfxTransactionVariant::Transaction(OfxTransaction {
        type_: type_.to_string(),
        timestamp: timestamp.to_string(),
        amount: amount.to_string(),
        id: id.to_string(),
        description: description.to_string(),
    })
}

fn statement(bank_id: &str, entries: Vec<OfxTransactionVariant>) -> OfxStatement {
    OfxStatement {
        currency_code: "BRL".to_string(),
        bank_account: OfxBankAccount { bank_id: bank_id.to_string() },
        transactions: OfxTransactions {
            start: "20230601000000[-3:BRT]".to_string(),
            end: "20230630000000[-3:BRT]".to_string(),
            transactions: entries,
        },
    }
}

fn status() -> OfxStatementStatus {
    OfxStatementStatus { code: 0, severity: "INFO".to_string() }
}

fn card(bank_id: &str, entries: Vec<OfxTransactionVariant>) -> Ofx {
    Ofx {
        bank: None,
        credit_card: Some(OfxCreditCard {
            statement: OfxCreditCardStatement {
                transaction_id: "transaction_id".to_string(),
                status: status(),
                statements: statement(bank_id, entries),
            },
        }),
    }
}

fn bank(bank_id: &str, entries: Vec<OfxTransactionVariant>) -> OfxBanking {
    OfxBanking {
        statement: OfxBankingStatement {
            transaction_id: "42".to_string(),
            status: OfxStatementStatus { code: 2000, severity: "ERROR".to_string() },
            statements: statement(bank_id, entries),
        },
    }
}

struct AsOfx<'a>(&'a Ofx);
struct AsBanking<'a>(&'a OfxBanking);
struct AsBankingStatement<'a>(&'a OfxBankingStatement);
struct AsCreditCard<'a>(&'a OfxCreditCard);
struct AsCreditCardStatement<'a>(&'a OfxCreditCardStatement);
struct AsStatus<'a>(&'a OfxStatementStatus);
struct AsStatement<'a>(&'a OfxStatement);
struct AsAccount<'a>(&'a OfxBankAccount);
struct AsTransactions<'a>(&'a OfxTransactions);
struct AsVariant<'a>(&'a OfxTransactionVariant);
struct AsTransaction<'a>(&'a OfxTransaction);

impl Serialize for AsOfx<'_> {
    fn serialize<S: Serializer>(&self, serializer: S) -> Result<S::Ok, S::Error> {
        let mut fields = serializer.serialize_struct("OFX", 2)?;
        fields.serialize_field("BANKMSGSRSV1", &self.0.bank.as_ref().map(AsBanking))?;
        fields.serialize_field("CREDITCARDMSGSRSV1", &self.0.credit_card.as_ref().map(AsCreditCard))?;
        fields.end()
    }
}

impl Serialize for AsBanking<'_> {
    fn serialize<S: Serializer>(&self, serializer: S) -> Result<S::Ok, S::Error> {
        let mut fields = serializer.serialize_struct("BANKMSGSRSV1", 1)?;
        fields.serialize_field("STMTTRNRS", &AsBankingStatement(&self.0.statement))?;
        fields.end()
    }
}

impl Serialize for AsBankingStatement<'_> {
    fn serialize<S: Serializer>(&self, serializer: S) -> Result<S::Ok, S::Error> {
        let mut fields = serializer.serialize_struct("OfxBankingStatement", 3)?;
        fields.serialize_field("TRNUID", &self.0.transaction_id)?;
        fields.serialize_field("STATUS", &AsStatus(&self.0.status))?;
        fields.serialize_field("STMTRS", &AsStatement(&self.0.statements))?;
        fields.end()
    }
}

impl Serialize for AsCreditCard<'_> {
    fn serialize<S: Serializer>(&self, serializer: S) -> Result<S::Ok, S::Error> {
        let mut fields = serializer.serialize_struct("CREDITCARDMSGSRSV1", 1)?;
        fields.serialize_field("CCSTMTTRNRS", &AsCreditCardStatement(&self.0.statement))?;
        fields.end()
    }
}

impl Serialize for AsCreditCardStatement<'_> {
    fn serialize<S: Serializer>(&self, serializer: S) -> Result<S::Ok, S::Error> {
        let mut fields = serializer.serialize_struct("OfxCreditCardStatement", 3)?;
        fields.serialize_field("TRNUID", &self.0.transaction_id)?;
        fields.serialize_field("STATUS", &AsStatus(&self.0.status))?;
        fields.serialize_field("CCSTMTRS", &AsStatement(&self.0.statements))?;
        fields.end()
    }
}

impl Serialize for AsStatus<'_> {
    fn serialize<S: Serializer>(&self, serializer: S) -> Result<S::Ok, S::Error> {
        let mut fields = serializer.serialize_struct("OfxStatementStatus", 2)?;
        fields.serialize_field("CODE", &self.0.code)?;
        fields.serialize_field("SEVERITY", &self.0.severity)?;
        fields.end()
    }
}

impl Serialize for AsStatement<'_> {
    fn serialize<S: Serializer>(&self, serializer: S) -> Result<S::Ok, S::Error> {
        let mut fields = serializer.serialize_struct("OfxStatement", 3)?;
        fields.serialize_field("CURDEF", &self.0.currency_code)?;
        fields.serialize_field("BANKACCTFROM", &AsAccount(&self.0.bank_account))?;
        fields.serialize_field("BANKTRANLIST", &AsTransactions(&self.0.transactions))?;
        fields.end()
    }
}

impl Serialize for AsAccount<'_> {
    fn serialize<S: Serializer>(&self, serializer: S) -> Result<S::Ok, S::Error> {
        let mut fields = serializer.serialize_struct("OfxBankAccount", 1)?;
        fields.serialize_field("BANKID", &self.0.bank_id)?;
        fields.end()
    }
}

impl Serialize for AsTransactions<'_> {
    fn serialize<S: Serializer>(&self, serializer: S) -> Result<S::Ok, S::Error> {
        let entries: Vec<AsVariant> = self.0.transactions.iter().map(AsVariant).collect();
        let mut fields = serializer.serialize_struct("BANKTRANLIST", 3)?;
        fields.serialize_field("DTSTART", &self.0.start)?;
        fields.serialize_field("DTEND", &self.0.end)?;
        fields.serialize_field("$value", &entries)?;
        fields.end()
    }
}

impl Serialize for AsVariant<'_> {
    fn serialize<S: Serializer>(&self, serializer: S) -> Result<S::Ok, S::Error> {
        match self.0 {
            OfxTransactionVariant::Transaction(transaction) => serializer
                .serialize_newtype_variant(
                    "OfxTransactionVariant",
                    0,
                    "STMTTRN",
                    &AsTransaction(transaction),
                ),
        }
    }
}

impl Serialize for AsTransaction<'_> {
    fn serialize<S: Serializer>(&self, serializer: S) -> Result<S::Ok, S::Error> {
        let mut fields = serializer.serialize_struct("STMTTRN", 5)?;
        fields.serialize_field("TRNTYPE", &self.0.type_)?;
        fields.serialize_field("DTPOSTED", &self.0.timestamp)?;
        fields.serialize_field("TRNAMT", &self.0.amount)?;
        fields.serialize_field("FITID", &self.0.id)?;
        fields.serialize_field("MEMO", &self.0.description)?;
        fields.end()
    }
}

fn leaves(document: &str) -> Vec<(String, String)> {
    let mut path: Vec<String> = Vec::new();
    let mut text = String::new();
    let mut found = Vec::new();
    let mut is_leaf = false;
    for event in EventReader::from_str(document) {
        match event.unwrap() {
            XmlEvent::StartElement { name, .. } => {
                path.push(name.local_name);
                text.clear();
                is_leaf = true;
            }
            XmlEvent::Characters(characters) | XmlEvent::Whitespace(characters) => {
                text.push_str(&characters);
            }
            XmlEvent::EndElement { .. } => {
                if is_leaf {
                    found.push((path.join("/"), text.clone()));
                }
                is_leaf = false;
                text.clear();
                path.pop();
            }
            _ => {}
        }
    }
    found
}

fn samples() -> Vec<Ofx> {
    vec![
        card("Caju", vec![]),
        card(
            "Caju",
            vec![entry("CREDIT", "20230601000000[-3:BRT]", "50.00", "abc", "Depósito em conta")],
        ),
        card(
            "Flash",
            vec![
                entry("DEBIT", "20230630000000[-3:BRT]", "-10.50", "1", "Padaria & Café <Centro>"),
                entry("CREDIT", "20230601000000[-3:BRT]", "0.00", "", ""),
                entry("", "", "", "", "a > b \"quoted\" 'single'\n\ttab"),
            ],
        ),
        Ofx { bank: None, credit_card: None },
        Ofx { bank: Some(bank("Bank <1>", vec![])), credit_card: None },
        Ofx {
            bank: Some(bank("", vec![entry("DEBIT", "d", "-1.00", "i", "m")])),
            credit_card: card("&", vec![entry("X", "&amp;", "]]>", "<!--", "-->")]).credit_card,
        },
    ]
}

#[test]
fn a_document_with_one_entry() {
    let document = card(
        "Caju",
        vec![entry("CREDIT", "20230601000000[-3:BRT]", "50.00", "abc", "Depósito em conta")],
    );
    assert_eq!(
        document.to_ofx().unwrap(),
        "<?xml version=\"1.0\" encoding=\"UTF-8\"?><OFX><BANKMSGSRSV1 /><CREDITCARDMSGSRSV1>\
         <CCSTMTTRNRS><TRNUID>transaction_id</TRNUID><STATUS><CODE>0</CODE>\
         <SEVERITY>INFO</SEVERITY></STATUS><CCSTMTRS><CURDEF>BRL</CURDEF><BANKACCTFROM>\
         <BANKID>Caju</BANKID></BANKACCTFROM><BANKTRANLIST>\
         <DTSTART>20230601000000[-3:BRT]</DTSTART><DTEND>20230630000000[-3:BRT]</DTEND>\
         <STMTTRN><TRNTYPE>CREDIT</TRNTYPE><DTPOSTED>20230601000000[-3:BRT]</DTPOSTED>\
         <TRNAMT>50.00</TRNAMT><FITID>abc</FITID><MEMO>Depósito em conta</MEMO></STMTTRN>\
         </BANKTRANLIST></CCSTMTRS></CCSTMTTRNRS></CREDITCARDMSGSRSV1></OFX>"
    );
}

#[test]
fn a_document_without_entries() {
    assert_eq!(
        card("Flash", vec![]).to_ofx().unwrap(),
        "<?xml version=\"1.0\" encoding=\"UTF-8\"?><OFX><BANKMSGSRSV1 /><CREDITCARDMSGSRSV1>\
         <CCSTMTTRNRS><TRNUID>transaction_id</TRNUID><STATUS><CODE>0</CODE>\
         <SEVERITY>INFO</SEVERITY></STATUS><CCSTMTRS><CURDEF>BRL</CURDEF><BANKACCTFROM>\
         <BANKID>Flash</BANKID></BANKACCTFROM><BANKTRANLIST>\
         <DTSTART>20230601000000[-3:BRT]</DTSTART><DTEND>20230630000000[-3:BRT]</DTEND>\
         </BANKTRANLIST></CCSTMTRS></CCSTMTTRNRS></CREDITCARDMSGSRSV1></OFX>"
    );
}

#[test]
fn a_document_without_blocks() {
    assert_eq!(
        Ofx { bank: None, credit_card: None }.to_ofx().unwrap(),
        "<?xml version=\"1.0\" encoding=\"UTF-8\"?><OFX><BANKMSGSRSV1 /><CREDITCARDMSGSRSV1 /></OFX>"
    );
}

#[test]
fn a_document_with_a_bank_block() {
    let document = Ofx { bank: Some(bank("0001", vec![])), credit_card: None };
    assert_eq!(
        document.to_ofx().unwrap(),
        "<?xml version=\"1.0\" encoding=\"UTF-8\"?><OFX><BANKMSGSRSV1><STMTTRNRS>\
         <TRNUID>42</TRNUID><STATUS><CODE>2000</CODE><SEVERITY>ERROR</SEVERITY></STATUS>\
         <STMTRS><CURDEF>BRL</CURDEF><BANKACCTFROM><BANKID>0001</BANKID></BANKACCTFROM>\
         <BANKTRANLIST><DTSTART>20230601000000[-3:BRT]</DTSTART>\
         <DTEND>20230630000000[-3:BRT]</DTEND></BANKTRANLIST></STMTRS></STMTTRNRS>\
         </BANKMSGSRSV1><CREDITCARDMSGSRSV1 /></OFX>"
    );
}

#[test]
fn text_is_escaped_and_empty_text_keeps_both_tags() {
    let document = card("A&B", vec![entry("<", ">", "&", "", "x<y")]);
    let text = document.to_ofx().unwrap();
    assert!(text.contains("<BANKID>A&amp;B</BANKID>"));
    assert!(text.contains(
        "<STMTTRN><TRNTYPE>&lt;</TRNTYPE><DTPOSTED>&gt;</DTPOSTED><TRNAMT>&amp;</TRNAMT>\
         <FITID></FITID><MEMO>x&lt;y</MEMO></STMTTRN>"
    ));
}

#[test]
fn every_document_starts_with_the_declaration() {
    for document in samples() {
        let text = document.to_ofx().unwrap();
        assert!(text.starts_with(XML_DECLARATION));
        assert!(text.ends_with("</OFX>"));
    }
}

#[test]
fn documents_are_written_as_serde_xml_rs_writes_them() {
    for document in samples() {
        let expected = serde_xml_rs::to_string(&AsOfx(&document)).unwrap();
        assert_eq!(document.to_ofx().unwrap(), expected);
    }
}

#[test]
fn a_document_read_by_a_parser_has_the_fields_that_went_in() {
    let document = card(
        "Caju & Cia",
        vec![
            entry("DEBIT", "20230630000000[-3:BRT]", "-10.50", "1", "Padaria & Café <Centro>"),
            entry("CREDIT", "20230601000000[-3:BRT]", "50.00", "2", "Depósito em conta"),
        ],
    );
    let list = "OFX/CREDITCARDMSGSRSV1/CCSTMTTRNRS/CCSTMTRS/BANKTRANLIST";
    let expected: Vec<(String, String)> = [
        ("OFX/BANKMSGSRSV1", ""),
        ("OFX/CREDITCARDMSGSRSV1/CCSTMTTRNRS/TRNUID", "transaction_id"),
        ("OFX/CREDITCARDMSGSRSV1/CCSTMTTRNRS/STATUS/CODE", "0"),
        ("OFX/CREDITCARDMSGSRSV1/CCSTMTTRNRS/STATUS/SEVERITY", "INFO"),
        ("OFX/CREDITCARDMSGSRSV1/CCSTMTTRNRS/CCSTMTRS/CURDEF", "BRL"),
        ("OFX/CREDITCARDMSGSRSV1/CCSTMTTRNRS/CCSTMTRS/BANKACCTFROM/BANKID", "Caju & Cia"),
        (&format!("{}/DTSTART", list), "20230601000000[-3:BRT]"),
        (&format!("{}/DTEND", list), "20230630000000[-3:BRT]"),
        (&format!("{}/STMTTRN/TRNTYPE", list), "DEBIT"),
        (&format!("{}/STMTTRN/DTPOSTED", list), "20230630000000[-3:BRT]"),
        (&format!("{}/STMTTRN/TRNAMT", list), "-10.50"),
        (&format!("{}/STMTTRN/FITID", list), "1"),
        (&format!("{}/STMTTRN/MEMO", list), "Padaria & Café <Centro>"),
        (&format!("{}/STMTTRN/TRNTYPE", list), "CREDIT"),
        (&format!("{}/STMTTRN/DTPOSTED", list), "20230601000000[-3:BRT]"),
        (&format!("{}/STMTTRN/TRNAMT", list), "50.00"),
        (&format!("{}/STMTTRN/FITID", list), "2"),
        (&format!("{}/STMTTRN/MEMO", list), "Depósito em conta"),
    ]
    .iter()
    .map(|(path, text)| (path.to_string(), text.to_string()))
    .collect();
    assert_eq!(leaves(&document.to_ofx().unwrap()), expected);
}

#[test]
fn a_card_statement_has_the_fixed_frame() {
    let document = Ofx::card_statement(
        "Caju",
        "s".to_string(),
        "e".to_string(),
        vec![entry("CREDIT", "t", "1.00", "i", "m")],
    );
    assert_eq!(
        document,
        Ofx {
            bank: None,
            credit_card: Some(OfxCreditCard {
                statement: OfxCreditCardStatement {
                    transaction_id: "transaction_id".to_string(),
                    status: status(),
                    statements: OfxStatement {
                        currency_code: "BRL".to_string(),
                        bank_account: OfxBankAccount { bank_id: "Caju".to_string() },
                        transactions: OfxTransactions {
                            start: "s".to_string(),
                            end: "e".to_string(),
                            transactions: vec![entry("CREDIT", "t", "1.00", "i", "m")],
                        },
                    },
                },
            }),
        }
    );
    assert_eq!(OfxLedgerBalance {}, OfxLedgerBalance {});
}

#[test]
fn a_document_that_is_written_is_read_back() {
    for document in samples() {
        let text = document.to_ofx().unwrap();
        assert_eq!(Ofx::from_ofx(&text), Some(document));
    }
}

#[test]
fn what_serde_xml_rs_writes_is_read_back() {
    for document in samples() {
        let text = serde_xml_rs::to_string(&AsOfx(&document)).unwrap();
        assert_eq!(Ofx::from_ofx(&text), Some(document));
    }
}

#[test]
fn a_document_is_read_field_by_field() {
    let text = "<?xml version=\"1.0\" encoding=\"UTF-8\"?><OFX><BANKMSGSRSV1 /><CREDITCARDMSGSRSV1>\
                <CCSTMTTRNRS><TRNUID>id &amp; more</TRNUID><STATUS><CODE>007</CODE>\
                <SEVERITY>WARN</SEVERITY></STATUS><CCSTMTRS><CURDEF>USD</CURDEF><BANKACCTFROM>\
                <BANKID>&lt;bank&gt;</BANKID></BANKACCTFROM><BANKTRANLIST>\
                <DTSTART>a</DTSTART><DTEND>b</DTEND>\
                <STMTTRN><TRNTYPE>DEBIT</TRNTYPE><DTPOSTED>c</DTPOSTED>\
                <TRNAMT>-1.00</TRNAMT><FITID></FITID><MEMO>x &amp;amp; y</MEMO></STMTTRN>\
                </BANKTRANLIST></CCSTMTRS></CCSTMTTRNRS></CREDITCARDMSGSRSV1></OFX>";
    let expected = Ofx {
        bank: None,
        credit_card: Some(OfxCreditCard {
            statement: OfxCreditCardStatement {
                transaction_id: "id & more".to_string(),
                status: OfxStatementStatus { code: 7, severity: "WARN".to_string() },
                statements: OfxStatement {
                    currency_code: "USD".to_string(),
                    bank_account: OfxBankAccount { bank_id: "<bank>".to_string() },
                    transactions: OfxTransactions {
                        start: "a".to_string(),
                        end: "b".to_string(),
                        transactions: vec![entry("DEBIT", "c", "-1.00", "", "x &amp; y")],
                    },
                },
            },
        }),
    };
    assert_eq!(Ofx::from_ofx(text), Some(expected));
}

#[test]
fn texts_that_are_no_document() {
    let good = card("Caju", vec![entry("CREDIT", "t", "50.00", "abc", "memo")]).to_ofx().unwrap();
    assert!(Ofx::from_ofx(&good).is_some());
    assert_eq!(Ofx::from_ofx(""), None);
    assert_eq!(Ofx::from_ofx(XML_DECLARATION), None);
    assert_eq!(Ofx::from_ofx(&good[XML_DECLARATION.len()..]), None);
    assert_eq!(Ofx::from_ofx(&good[..good.len() - 1]), None);
    assert_eq!(Ofx::from_ofx(&format!("{} ", good)), None);
    assert_eq!(Ofx::from_ofx(&format!(" {}", good)), None);
    assert_eq!(Ofx::from_ofx(&format!("{}{}", good, good)), None);
    for (from, to) in [
        ("<CODE>0</CODE>", "<CODE></CODE>"),
        ("<CODE>0</CODE>", "<CODE>zero</CODE>"),
        ("<CODE>0</CODE>", "<CODE>-1</CODE>"),
        ("<CODE>0</CODE>", "<CODE>+1</CODE>"),
        ("<CODE>0</CODE>", "<CODE>99999999999999999999999999999999</CODE>"),
        ("<CODE>0</CODE>", ""),
        ("<MEMO>memo</MEMO>", "<MEMO>me>mo</MEMO>"),
        ("<MEMO>memo</MEMO>", "<MEMO>me&mo</MEMO>"),
        ("<MEMO>memo</MEMO>", "<MEMO>me&quot;mo</MEMO>"),
        ("<MEMO>memo</MEMO>", "<MEMO>me&lt</MEMO>"),
        ("<MEMO>memo</MEMO>", "<MEMO>memo</memo>"),
        ("<MEMO>memo</MEMO>", "<MEMO>memo"),
        ("<MEMO>memo</MEMO>", "<MEMO>me<b>m</b>o</MEMO>"),
        ("<MEMO>memo</MEMO>", ""),
        ("<FITID>abc</FITID><MEMO>memo</MEMO>", "<MEMO>memo</MEMO><FITID>abc</FITID>"),
        ("<BANKMSGSRSV1 />", ""),
        ("<BANKMSGSRSV1 />", "<BANKMSGSRSV1/>"),
        ("<BANKMSGSRSV1 />", "<BANKMSGSRSV1></BANKMSGSRSV1>"),
        ("</STMTTRN>", "</STMTTRN><STMTTRN></STMTTRN>"),
        ("<CCSTMTRS>", "<STMTRS>"),
        ("<OFX>", "<OFX >"),
        ("UTF-8", "utf-8"),
    ] {
        assert!(good.contains(from));
        assert_eq!(Ofx::from_ofx(&good.replacen(from, to, 1)), None, "{}", to);
    }
}

#[test]
fn a_code_as_large_as_the_machine_holds_is_read_back() {
    let mut document = card("Caju", vec![]);
    document.credit_card.as_mut().unwrap().statement.status.code = usize::MAX;
    let text = document.to_ofx().unwrap();
    assert!(text.contains(&format!("<CODE>{}</CODE>", usize::MAX)));
    assert_eq!(Ofx::from_ofx(&text), Some(document));
}
