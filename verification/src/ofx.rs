//! The statement document: its tree, and the text that the tree is written
//! as.

use crate::error::Error;
use crate::text::{decimal, push_decimal, push_text};
use crate::xml::{element, empty_element, end_tag, push_escaped, start_tag, text_element};
use vstd::prelude::*;

verus! {

/// The line that opens every document.
pub const XML_DECLARATION: &'static str = "<?xml version=\"1.0\" encoding=\"UTF-8\"?>";

/// One transaction of a statement, every field as text.
pub struct TransactionView {
    pub type_: Seq<char>,
    pub timestamp: Seq<char>,
    pub amount: Seq<char>,
    pub id: Seq<char>,
    pub description: Seq<char>,
}

/// The transactions of a statement, between the dates of the first and of
/// the last.
pub struct TransactionsView {
    pub start: Seq<char>,
    pub end: Seq<char>,
    pub transactions: Seq<TransactionView>,
}

/// The status that answers a request for a statement.
pub struct StatusView {
    pub code: nat,
    pub severity: Seq<char>,
}

/// A statement: its currency, the account it belongs to, its transactions.
pub struct StatementView {
    pub currency_code: Seq<char>,
    pub bank_id: Seq<char>,
    pub transactions: TransactionsView,
}

/// The answer to a request for a statement.
pub struct ResponseView {
    pub transaction_id: Seq<char>,
    pub status: StatusView,
    pub statements: StatementView,
}

/// A document: the answer for a bank account, the answer for a credit card,
/// both, or neither.
pub struct OfxView {
    pub bank: Option<ResponseView>,
    pub credit_card: Option<ResponseView>,
}

/// `<OFX>`, the root of a document.
#[derive(Debug, Clone, PartialEq, Eq)]
pub struct Ofx {
    /// `<BANKMSGSRSV1>`
    pub bank: Option<OfxBanking>,
    /// `<CREDITCARDMSGSRSV1>`
    pub credit_card: Option<OfxCreditCard>,
}

/// `<BANKMSGSRSV1>`
#[derive(Debug, Clone, PartialEq, Eq)]
pub struct OfxBanking {
    /// `<STMTTRNRS>`
    pub statement: OfxBankingStatement,
}

/// `<STMTTRNRS>`
#[derive(Debug, Clone, PartialEq, Eq)]
pub struct OfxBankingStatement {
    /// `<TRNUID>`
    pub transaction_id: String,
    /// `<STATUS>`
    pub status: OfxStatementStatus,
    /// `<STMTRS>`
    pub statements: OfxStatement,
}

/// `<CREDITCARDMSGSRSV1>`
#[derive(Debug, Clone, PartialEq, Eq)]
pub struct OfxCreditCard {
    /// `<CCSTMTTRNRS>`
    pub statement: OfxCreditCardStatement,
}

/// `<CCSTMTTRNRS>`
#[derive(Debug, Clone, PartialEq, Eq)]
pub struct OfxCreditCardStatement {
    /// `<TRNUID>`
    pub transaction_id: String,
    /// `<STATUS>`
    pub status: OfxStatementStatus,
    /// `<CCSTMTRS>`
    pub statements: OfxStatement,
}

/// `<STATUS>`
#[derive(Debug, Clone, PartialEq, Eq)]
pub struct OfxStatementStatus {
    /// `<CODE>`
    pub code: usize,
    /// `<SEVERITY>`
    pub severity: String,
}

/// `<STMTRS>` or `<CCSTMTRS>`
#[derive(Debug, Clone, PartialEq, Eq)]
pub struct OfxStatement {
    /// `<CURDEF>`
    pub currency_code: String,
    /// `<BANKACCTFROM>`
    pub bank_account: OfxBankAccount,
    /// `<BANKTRANLIST>`
    pub transactions: OfxTransactions,
}

/// `<BANKACCTFROM>`
#[derive(Debug, Clone, PartialEq, Eq)]
pub struct OfxBankAccount {
    /// `<BANKID>`
    pub bank_id: String,
}

/// `<BANKTRANLIST>`
#[derive(Debug, Clone, PartialEq, Eq)]
pub struct OfxTransactions {
    /// `<DTSTART>`
    pub start: String,
    /// `<DTEND>`
    pub end: String,
    /// The entries, in order.
    pub transactions: Vec<OfxTransactionVariant>,
}

/// An entry of `<BANKTRANLIST>`.
#[derive(Debug, Clone, PartialEq, Eq)]
pub enum OfxTransactionVariant {
    /// `<STMTTRN>`
    Transaction(OfxTransaction),
}

/// `<STMTTRN>`
#[derive(Debug, Clone, PartialEq, Eq)]
pub struct OfxTransaction {
    /// `<TRNTYPE>`
    pub type_: String,
    /// `<DTPOSTED>`
    pub timestamp: String,
    /// `<TRNAMT>`
    pub amount: String,
    /// `<FITID>`
    pub id: String,
    /// `<MEMO>`
    pub description: String,
}

/// `<LEDGERBAL>`, which no document carries yet.
#[derive(Debug, Clone, PartialEq, Eq)]
pub struct OfxLedgerBalance {}

impl View for OfxTransaction {
    type V = TransactionView;

    open spec fn view(&self) -> TransactionView {
        TransactionView {
            type_: self.type_@,
            timestamp: self.timestamp@,
            amount: self.amount@,
            id: self.id@,
            description: self.description@,
        }
    }
}

impl View for OfxTransactionVariant {
    type V = TransactionView;

    open spec fn view(&self) -> TransactionView {
        match self {
            OfxTransactionVariant::Transaction(transaction) => transaction@,
        }
    }
}

impl View for OfxTransactions {
    type V = TransactionsView;

    open spec fn view(&self) -> TransactionsView {
        TransactionsView {
            start: self.start@,
            end: self.end@,
            transactions: self.transactions@.map_values(|t: OfxTransactionVariant| t@),
        }
    }
}

impl View for OfxStatementStatus {
    type V = StatusView;

    open spec fn view(&self) -> StatusView {
        StatusView { code: self.code as nat, severity: self.severity@ }
    }
}

impl View for OfxStatement {
    type V = StatementView;

    open spec fn view(&self) -> StatementView {
        StatementView {
            currency_code: self.currency_code@,
            bank_id: self.bank_account.bank_id@,
            transactions: self.transactions@,
        }
    }
}

impl View for OfxBankingStatement {
    type V = ResponseView;

    open spec fn view(&self) -> ResponseView {
        ResponseView {
            transaction_id: self.transaction_id@,
            status: self.status@,
            statements: self.statements@,
        }
    }
}

impl View for OfxCreditCardStatement {
    type V = ResponseView;

    open spec fn view(&self) -> ResponseView {
        ResponseView {
            transaction_id: self.transaction_id@,
            status: self.status@,
            statements: self.statements@,
        }
    }
}

impl View for Ofx {
    type V = OfxView;

    open spec fn view(&self) -> OfxView {
        OfxView {
            bank: match self.bank {
                Some(bank) => Some(bank.statement@),
                None => None,
            },
            credit_card: match self.credit_card {
                Some(card) => Some(card.statement@),
                None => None,
            },
        }
    }
}

/// `<STMTTRN>` with its five fields.
pub open spec fn transaction_xml(t: TransactionView) -> Seq<char> {
    element(
        "STMTTRN"@,
        text_element("TRNTYPE"@, t.type_) + text_element("DTPOSTED"@, t.timestamp) + text_element(
            "TRNAMT"@,
            t.amount,
        ) + text_element("FITID"@, t.id) + text_element("MEMO"@, t.description),
    )
}

/// The entries of a list, one after the other.
pub open spec fn entries_xml(entries: Seq<TransactionView>) -> Seq<char>
    decreases entries.len(),
{
    if entries.len() == 0 {
        Seq::empty()
    } else {
        entries_xml(entries.drop_last()) + transaction_xml(entries.last())
    }
}

/// `<BANKTRANLIST>`: the two dates, then the entries.
#[verifier::opaque]
pub open spec fn transactions_xml(list: TransactionsView) -> Seq<char> {
    element(
        "BANKTRANLIST"@,
        text_element("DTSTART"@, list.start) + text_element("DTEND"@, list.end) + entries_xml(
            list.transactions,
        ),
    )
}

/// `<STATUS>`: the code in decimal, then the severity.
#[verifier::opaque]
pub open spec fn status_xml(status: StatusView) -> Seq<char> {
    element(
        "STATUS"@,
        element("CODE"@, decimal(status.code)) + text_element("SEVERITY"@, status.severity),
    )
}

/// A statement under the given name: currency, account, transactions.
#[verifier::opaque]
pub open spec fn statement_xml(name: Seq<char>, statement: StatementView) -> Seq<char> {
    element(
        name,
        text_element("CURDEF"@, statement.currency_code) + element(
            "BANKACCTFROM"@,
            text_element("BANKID"@, statement.bank_id),
        ) + transactions_xml(statement.transactions),
    )
}

/// An answer under the given name, its statement under `statement_name`.
#[verifier::opaque]
pub open spec fn response_xml(
    name: Seq<char>,
    statement_name: Seq<char>,
    response: ResponseView,
) -> Seq<char> {
    element(
        name,
        text_element("TRNUID"@, response.transaction_id) + status_xml(response.status)
            + statement_xml(statement_name, response.statements),
    )
}

/// A message block under the given name: around its answer where there is
/// one, and an empty element where there is none.
pub open spec fn message_xml(
    name: Seq<char>,
    response_name: Seq<char>,
    statement_name: Seq<char>,
    response: Option<ResponseView>,
) -> Seq<char> {
    match response {
        Some(r) => element(name, response_xml(response_name, statement_name, r)),
        None => empty_element(name),
    }
}

/// The whole document: the declaration, then `<OFX>` around the bank block
/// and the credit-card block.
pub open spec fn document_xml(document: OfxView) -> Seq<char> {
    XML_DECLARATION@ + element(
        "OFX"@,
        message_xml("BANKMSGSRSV1"@, "STMTTRNRS"@, "STMTRS"@, document.bank) + message_xml(
            "CREDITCARDMSGSRSV1"@,
            "CCSTMTTRNRS"@,
            "CCSTMTRS"@,
            document.credit_card,
        ),
    )
}

fn push_start_tag(out: &mut String, name: &str)
    ensures
        final(out)@ == old(out)@ + start_tag(name@),
{
    out.push('<');
    push_text(out, name);
    out.push('>');
    assert(out@ =~= old(out)@ + start_tag(name@));
}

fn push_end_tag(out: &mut String, name: &str)
    ensures
        final(out)@ == old(out)@ + end_tag(name@),
{
    out.push('<');
    out.push('/');
    push_text(out, name);
    out.push('>');
    assert(out@ =~= old(out)@ + end_tag(name@));
}

fn push_empty_element(out: &mut String, name: &str)
    ensures
        final(out)@ == old(out)@ + empty_element(name@),
{
    out.push('<');
    push_text(out, name);
    out.push(' ');
    out.push('/');
    out.push('>');
    assert(out@ =~= old(out)@ + empty_element(name@));
}

fn push_text_element(out: &mut String, name: &str, text: &str)
    ensures
        final(out)@ == old(out)@ + text_element(name@, text@),
{
    push_start_tag(out, name);
    push_escaped(out, text);
    push_end_tag(out, name);
    assert(out@ =~= old(out)@ + text_element(name@, text@));
}

impl OfxTransaction {
    fn push_xml(&self, out: &mut String)
        ensures
            final(out)@ == old(out)@ + transaction_xml(self@),
    {
        push_start_tag(out, "STMTTRN");
        push_text_element(out, "TRNTYPE", self.type_.as_str());
        push_text_element(out, "DTPOSTED", self.timestamp.as_str());
        push_text_element(out, "TRNAMT", self.amount.as_str());
        push_text_element(out, "FITID", self.id.as_str());
        push_text_element(out, "MEMO", self.description.as_str());
        push_end_tag(out, "STMTTRN");
        assert(out@ =~= old(out)@ + transaction_xml(self@));
    }
}

impl OfxTransactions {
    fn push_xml(&self, out: &mut String)
        ensures
            final(out)@ == old(out)@ + transactions_xml(self@),
    {
        push_start_tag(out, "BANKTRANLIST");
        push_text_element(out, "DTSTART", self.start.as_str());
        push_text_element(out, "DTEND", self.end.as_str());
        let ghost head = out@;
        let ghost entries = self@.transactions;
        let mut i: usize = 0;
        while i < self.transactions.len()
            invariant
                i <= self.transactions.len(),
                entries == self@.transactions,
                out@ == head + entries_xml(entries.take(i as int)),
            decreases self.transactions.len() - i,
        {
            match &self.transactions[i] {
                OfxTransactionVariant::Transaction(transaction) => {
                    transaction.push_xml(out);
                },
            }
            assert(entries.take(i + 1).drop_last() =~= entries.take(i as int));
            i = i + 1;
            assert(out@ =~= head + entries_xml(entries.take(i as int)));
        }
        assert(entries.take(i as int) =~= entries);
        push_end_tag(out, "BANKTRANLIST");
        reveal(transactions_xml);
        assert(out@ =~= old(out)@ + transactions_xml(self@));
    }
}

impl OfxStatementStatus {
    fn push_xml(&self, out: &mut String)
        ensures
            final(out)@ == old(out)@ + status_xml(self@),
    {
        push_start_tag(out, "STATUS");
        push_start_tag(out, "CODE");
        push_decimal(out, self.code as u64);
        push_end_tag(out, "CODE");
        push_text_element(out, "SEVERITY", self.severity.as_str());
        push_end_tag(out, "STATUS");
        reveal(status_xml);
        assert(out@ =~= old(out)@ + status_xml(self@));
    }
}

impl OfxStatement {
    fn push_xml(&self, out: &mut String, name: &str)
        ensures
            final(out)@ == old(out)@ + statement_xml(name@, self@),
    {
        push_start_tag(out, name);
        push_text_element(out, "CURDEF", self.currency_code.as_str());
        push_start_tag(out, "BANKACCTFROM");
        push_text_element(out, "BANKID", self.bank_account.bank_id.as_str());
        push_end_tag(out, "BANKACCTFROM");
        self.transactions.push_xml(out);
        push_end_tag(out, name);
        reveal(statement_xml);
        assert(out@ =~= old(out)@ + statement_xml(name@, self@));
    }
}

fn push_response(
    out: &mut String,
    name: &str,
    statement_name: &str,
    transaction_id: &str,
    status: &OfxStatementStatus,
    statements: &OfxStatement,
)
    ensures
        final(out)@ == old(out)@ + response_xml(
            name@,
            statement_name@,
            ResponseView {
                transaction_id: transaction_id@,
                status: status@,
                statements: statements@,
            },
        ),
{
    push_start_tag(out, name);
    push_text_element(out, "TRNUID", transaction_id);
    status.push_xml(out);
    statements.push_xml(out, statement_name);
    push_end_tag(out, name);
    reveal(response_xml);
    assert(out@ =~= old(out)@ + response_xml(
        name@,
        statement_name@,
        ResponseView { transaction_id: transaction_id@, status: status@, statements: statements@ },
    ));
}

impl OfxBanking {
    fn push_xml(&self, out: &mut String)
        ensures
            final(out)@ == old(out)@ + element(
                "BANKMSGSRSV1"@,
                response_xml("STMTTRNRS"@, "STMTRS"@, self.statement@),
            ),
    {
        push_start_tag(out, "BANKMSGSRSV1");
        push_response(
            out,
            "STMTTRNRS",
            "STMTRS",
            self.statement.transaction_id.as_str(),
            &self.statement.status,
            &self.statement.statements,
        );
        push_end_tag(out, "BANKMSGSRSV1");
        assert(out@ =~= old(out)@ + element(
            "BANKMSGSRSV1"@,
            response_xml("STMTTRNRS"@, "STMTRS"@, self.statement@),
        ));
    }
}

impl OfxCreditCard {
    fn push_xml(&self, out: &mut String)
        ensures
            final(out)@ == old(out)@ + element(
                "CREDITCARDMSGSRSV1"@,
                response_xml("CCSTMTTRNRS"@, "CCSTMTRS"@, self.statement@),
            ),
    {
        push_start_tag(out, "CREDITCARDMSGSRSV1");
        push_response(
            out,
            "CCSTMTTRNRS",
            "CCSTMTRS",
            self.statement.transaction_id.as_str(),
            &self.statement.status,
            &self.statement.statements,
        );
        push_end_tag(out, "CREDITCARDMSGSRSV1");
        assert(out@ =~= old(out)@ + element(
            "CREDITCARDMSGSRSV1"@,
            response_xml("CCSTMTTRNRS"@, "CCSTMTRS"@, self.statement@),
        ));
    }
}

/// Five pieces in a row are the first, then the element of the three in
/// the middle.
proof fn lemma_root(
    declaration: Seq<char>,
    open: Seq<char>,
    bank: Seq<char>,
    card: Seq<char>,
    close: Seq<char>,
)
    ensures
        declaration + open + bank + card + close == declaration + (open + (bank + card) + close),
{
    assert(declaration + open + bank + card + close =~= declaration + (open + (bank + card)
        + close));
}

impl Ofx {
    /// The document as text.
    ///
    /// Every tree can be written, so this never fails. A block that is
    /// absent is written as an empty element, and a text field that is empty
    /// as a start tag and an end tag.
    pub fn to_ofx(&self) -> (document: Result<String, Error>)
        ensures
            document is Ok,
            document matches Ok(text) ==> text@ == document_xml(self@),
    {
        let mut out = String::new();
        push_text(&mut out, XML_DECLARATION);
        push_start_tag(&mut out, "OFX");
        match &self.bank {
            Some(bank) => {
                bank.push_xml(&mut out);
            },
            None => {
                push_empty_element(&mut out, "BANKMSGSRSV1");
            },
        }
        match &self.credit_card {
            Some(card) => {
                card.push_xml(&mut out);
            },
            None => {
                push_empty_element(&mut out, "CREDITCARDMSGSRSV1");
            },
        }
        push_end_tag(&mut out, "OFX");
        proof {
            lemma_root(
                XML_DECLARATION@,
                start_tag("OFX"@),
                message_xml("BANKMSGSRSV1"@, "STMTTRNRS"@, "STMTRS"@, self@.bank),
                message_xml("CREDITCARDMSGSRSV1"@, "CCSTMTTRNRS"@, "CCSTMTRS"@, self@.credit_card),
                end_tag("OFX"@),
            );
        }
        Ok(out)
    }
}

/// The document of one credit-card statement in reais: no bank block, a
/// fixed transaction id, a status of success, the provider's name as the
/// account, and the transactions between the two dates.
pub open spec fn card_document(
    provider: Seq<char>,
    start: Seq<char>,
    end: Seq<char>,
    transactions: Seq<TransactionView>,
) -> OfxView {
    OfxView {
        bank: None,
        credit_card: Some(
            ResponseView {
                transaction_id: "transaction_id"@,
                status: StatusView { code: 0, severity: "INFO"@ },
                statements: StatementView {
                    currency_code: "BRL"@,
                    bank_id: provider,
                    transactions: TransactionsView { start, end, transactions },
                },
            },
        ),
    }
}

impl Ofx {
    /// The document of one credit-card statement of the given provider.
    pub fn card_statement(
        provider: &str,
        start: String,
        end: String,
        transactions: Vec<OfxTransactionVariant>,
    ) -> (document: Ofx)
        ensures
            document@ == card_document(
                provider@,
                start@,
                end@,
                transactions@.map_values(|t: OfxTransactionVariant| t@),
            ),
    {
        Ofx {
            bank: None,
            credit_card: Some(
                OfxCreditCard {
                    statement: OfxCreditCardStatement {
                        transaction_id: "transaction_id".to_owned(),
                        status: OfxStatementStatus { code: 0, severity: "INFO".to_owned() },
                        statements: OfxStatement {
                            currency_code: "BRL".to_owned(),
                            bank_account: OfxBankAccount { bank_id: provider.to_owned() },
                            transactions: OfxTransactions { start, end, transactions },
                        },
                    },
                },
            ),
        }
    }
}

} // verus!
