//! Reading a statement document back from its text.

use crate::ofx::{
    document_xml, entries_xml, message_xml, response_xml, statement_xml, status_xml,
    transaction_xml, transactions_xml, Ofx, OfxBankAccount, OfxBanking, OfxBankingStatement,
    OfxCreditCard, OfxCreditCardStatement, OfxStatement, OfxStatementStatus, OfxTransaction,
    OfxTransactionVariant, OfxTransactions, OfxView, ResponseView, StatementView, StatusView,
    TransactionView, TransactionsView, XML_DECLARATION,
};
use crate::text::{
    all_digits, chars_of, decimal, digit_char, digit_value, digits_value, is_digit, narrower,
    padded, parse_digits, read_digits, zeros,
};
use crate::xml::{
    after_word, element, empty_element, end_tag, escaped, lemma_after_word,
    lemma_read_text_element, lemma_read_text_element_rest, read_text_element, start_tag,
    start_tag_of, text_element, Reader,
};
use vstd::prelude::*;

verus! {

/// The number in the element `name` at the start of `text`, and what
/// follows the element. The number is written in decimal digits and is one
/// that the machine can hold.
pub open spec fn read_number_element(text: Seq<char>, name: Seq<char>) -> Option<
    (nat, Seq<char>),
> {
    match read_text_element(text, name) {
        Some((digits, rest)) => match read_digits(digits, usize::MAX as nat) {
            Some(n) => Some((n, rest)),
            None => None,
        },
        None => None,
    }
}

/// The entry at the start of `text`, and what follows it.
#[verifier::opaque]
pub open spec fn read_transaction(text: Seq<char>) -> Option<(TransactionView, Seq<char>)> {
    match after_word(text, start_tag("STMTTRN"@)) {
        Some(t0) => match read_text_element(t0, "TRNTYPE"@) {
            Some((type_, t1)) => match read_text_element(t1, "DTPOSTED"@) {
                Some((timestamp, t2)) => match read_text_element(t2, "TRNAMT"@) {
                    Some((amount, t3)) => match read_text_element(t3, "FITID"@) {
                        Some((id, t4)) => match read_text_element(t4, "MEMO"@) {
                            Some((description, t5)) => match after_word(t5, end_tag("STMTTRN"@)) {
                                Some(rest) => Some(
                                    (
                                        TransactionView {
                                            type_,
                                            timestamp,
                                            amount,
                                            id,
                                            description,
                                        },
                                        rest,
                                    ),
                                ),
                                None => None,
                            },
                            None => None,
                        },
                        None => None,
                    },
                    None => None,
                },
                None => None,
            },
            None => None,
        },
        None => None,
    }
}

/// `first` in front of the entries that were read, where any were read.
pub open spec fn with_entries(
    first: Seq<TransactionView>,
    read: Option<(Seq<TransactionView>, Seq<char>)>,
) -> Option<(Seq<TransactionView>, Seq<char>)> {
    match read {
        Some((entries, rest)) => Some((first + entries, rest)),
        None => None,
    }
}

/// The entries at the start of `text`, and what follows them. The entries
/// end where no further `<STMTTRN>` starts.
pub open spec fn read_entries(text: Seq<char>) -> Option<(Seq<TransactionView>, Seq<char>)>
    decreases text.len(),
{
    if start_tag("STMTTRN"@).is_prefix_of(text) {
        match read_transaction(text) {
            Some((entry, rest)) => if rest.len() < text.len() {
                with_entries(seq![entry], read_entries(rest))
            } else {
                None
            },
            None => None,
        }
    } else {
        Some((Seq::empty(), text))
    }
}

/// The list of transactions at the start of `text`, and what follows it.
#[verifier::opaque]
pub open spec fn read_transactions(text: Seq<char>) -> Option<(TransactionsView, Seq<char>)> {
    match after_word(text, start_tag("BANKTRANLIST"@)) {
        Some(t0) => match read_text_element(t0, "DTSTART"@) {
            Some((start, t1)) => match read_text_element(t1, "DTEND"@) {
                Some((end, t2)) => match read_entries(t2) {
                    Some((transactions, t3)) => match after_word(t3, end_tag("BANKTRANLIST"@)) {
                        Some(rest) => Some((TransactionsView { start, end, transactions }, rest)),
                        None => None,
                    },
                    None => None,
                },
                None => None,
            },
            None => None,
        },
        None => None,
    }
}

/// The status at the start of `text`, and what follows it.
#[verifier::opaque]
pub open spec fn read_status(text: Seq<char>) -> Option<(StatusView, Seq<char>)> {
    match after_word(text, start_tag("STATUS"@)) {
        Some(t0) => match read_number_element(t0, "CODE"@) {
            Some((code, t1)) => match read_text_element(t1, "SEVERITY"@) {
                Some((severity, t2)) => match after_word(t2, end_tag("STATUS"@)) {
                    Some(rest) => Some((StatusView { code, severity }, rest)),
                    None => None,
                },
                None => None,
            },
            None => None,
        },
        None => None,
    }
}

/// The statement under the given name at the start of `text`, and what
/// follows it.
#[verifier::opaque]
pub open spec fn read_statement(text: Seq<char>, name: Seq<char>) -> Option<
    (StatementView, Seq<char>),
> {
    match after_word(text, start_tag(name)) {
        Some(t0) => match read_text_element(t0, "CURDEF"@) {
            Some((currency_code, t1)) => match after_word(t1, start_tag("BANKACCTFROM"@)) {
                Some(t2) => match read_text_element(t2, "BANKID"@) {
                    Some((bank_id, t3)) => match after_word(t3, end_tag("BANKACCTFROM"@)) {
                        Some(t4) => match read_transactions(t4) {
                            Some((transactions, t5)) => match after_word(t5, end_tag(name)) {
                                Some(rest) => Some(
                                    (StatementView { currency_code, bank_id, transactions }, rest),
                                ),
                                None => None,
                            },
                            None => None,
                        },
                        None => None,
                    },
                    None => None,
                },
                None => None,
            },
            None => None,
        },
        None => None,
    }
}

/// The answer under the given name at the start of `text`, its statement
/// under `statement_name`, and what follows the answer.
#[verifier::opaque]
pub open spec fn read_response(
    text: Seq<char>,
    name: Seq<char>,
    statement_name: Seq<char>,
) -> Option<(ResponseView, Seq<char>)> {
    match after_word(text, start_tag(name)) {
        Some(t0) => match read_text_element(t0, "TRNUID"@) {
            Some((transaction_id, t1)) => match read_status(t1) {
                Some((status, t2)) => match read_statement(t2, statement_name) {
                    Some((statements, t3)) => match after_word(t3, end_tag(name)) {
                        Some(rest) => Some(
                            (ResponseView { transaction_id, status, statements }, rest),
                        ),
                        None => None,
                    },
                    None => None,
                },
                None => None,
            },
            None => None,
        },
        None => None,
    }
}

/// The message block under the given name at the start of `text`, and what
/// follows it: no answer where the block is an empty element, the answer
/// inside it otherwise.
pub open spec fn read_message(
    text: Seq<char>,
    name: Seq<char>,
    response_name: Seq<char>,
    statement_name: Seq<char>,
) -> Option<(Option<ResponseView>, Seq<char>)> {
    match after_word(text, empty_element(name)) {
        Some(rest) => Some((None, rest)),
        None => match after_word(text, start_tag(name)) {
            Some(t0) => match read_response(t0, response_name, statement_name) {
                Some((response, t1)) => match after_word(t1, end_tag(name)) {
                    Some(rest) => Some((Some(response), rest)),
                    None => None,
                },
                None => None,
            },
            None => None,
        },
    }
}

/// The document that `text` is the text of, if it is the text of one.
pub open spec fn read_document(text: Seq<char>) -> Option<OfxView> {
    match after_word(text, XML_DECLARATION@) {
        Some(t0) => match after_word(t0, start_tag("OFX"@)) {
            Some(t1) => match read_message(t1, "BANKMSGSRSV1"@, "STMTTRNRS"@, "STMTRS"@) {
                Some((bank, t2)) => match read_message(
                    t2,
                    "CREDITCARDMSGSRSV1"@,
                    "CCSTMTTRNRS"@,
                    "CCSTMTRS"@,
                ) {
                    Some((credit_card, t3)) => match after_word(t3, end_tag("OFX"@)) {
                        Some(rest) => if rest.len() == 0 {
                            Some(OfxView { bank, credit_card })
                        } else {
                            None
                        },
                        None => None,
                    },
                    None => None,
                },
                None => None,
            },
            None => None,
        },
        None => None,
    }
}

/// Zeros write the number zero.
proof fn lemma_zeros_value(count: nat)
    ensures
        all_digits(zeros(count)),
        digits_value(zeros(count)) == 0,
    decreases count,
{
    if count > 0 {
        lemma_zeros_value((count - 1) as nat);
        assert(zeros(count).drop_last() =~= zeros((count - 1) as nat));
    }
}

/// A number in decimal is made of digits, and they write that number.
pub proof fn lemma_decimal_is_read_back(n: nat, width: nat)
    ensures
        padded(n, width).len() > 0,
        all_digits(padded(n, width)),
        digits_value(padded(n, width)) == n,
    decreases n,
{
    let digit = digit_char((n % 10) as int);
    assert(is_digit(digit) && digit_value(digit) == n % 10);
    if n < 10 {
        let fill = zeros(narrower(width));
        lemma_zeros_value(narrower(width));
        assert(fill.push(digit).drop_last() =~= fill);
        assert forall|i: int| 0 <= i < fill.push(digit).len() implies is_digit(
            #[trigger] fill.push(digit)[i],
        ) by {
            if i < fill.len() {
                assert(fill.push(digit)[i] == fill[i]);
            }
        }
    } else {
        let front = padded(n / 10, narrower(width));
        lemma_decimal_is_read_back(n / 10, narrower(width));
        assert(front.push(digit).drop_last() =~= front);
        assert forall|i: int| 0 <= i < front.push(digit).len() implies is_digit(
            #[trigger] front.push(digit)[i],
        ) by {
            if i < front.len() {
                assert(front.push(digit)[i] == front[i]);
            }
        }
    }
}

/// Digits stand for themselves in character data.
pub proof fn lemma_digits_are_not_escaped(digits: Seq<char>)
    requires
        all_digits(digits),
    ensures
        escaped(digits) == digits,
    decreases digits.len(),
{
    if digits.len() > 0 {
        assert(is_digit(digits.last()));
        lemma_digits_are_not_escaped(digits.drop_last());
        assert(escaped(digits) =~= digits);
    } else {
        assert(escaped(digits) =~= digits);
    }
}

/// A number that was written in an element is read back.
pub proof fn lemma_read_number_element(name: Seq<char>, n: nat, rest: Seq<char>)
    requires
        n <= usize::MAX,
    ensures
        read_number_element(element(name, decimal(n)) + rest, name) == Some((n, rest)),
{
    lemma_decimal_is_read_back(n, 1);
    lemma_digits_are_not_escaped(decimal(n));
    lemma_read_text_element(name, decimal(n), rest);
}

/// An entry that was written is read back.
pub proof fn lemma_read_transaction(t: TransactionView, rest: Seq<char>)
    ensures
        read_transaction(transaction_xml(t) + rest) == Some((t, rest)),
{
    reveal(read_transaction);
    let t5 = end_tag("STMTTRN"@) + rest;
    let t4 = text_element("MEMO"@, t.description) + t5;
    let t3 = text_element("FITID"@, t.id) + t4;
    let t2 = text_element("TRNAMT"@, t.amount) + t3;
    let t1 = text_element("DTPOSTED"@, t.timestamp) + t2;
    let t0 = text_element("TRNTYPE"@, t.type_) + t1;
    assert(transaction_xml(t) + rest =~= start_tag("STMTTRN"@) + t0);
    lemma_after_word(start_tag("STMTTRN"@), t0);
    lemma_read_text_element("TRNTYPE"@, t.type_, t1);
    lemma_read_text_element("DTPOSTED"@, t.timestamp, t2);
    lemma_read_text_element("TRNAMT"@, t.amount, t3);
    lemma_read_text_element("FITID"@, t.id, t4);
    lemma_read_text_element("MEMO"@, t.description, t5);
    lemma_after_word(end_tag("STMTTRN"@), rest);
}

/// What follows an entry is shorter than the text it was read from.
pub proof fn lemma_read_transaction_rest(text: Seq<char>)
    ensures
        read_transaction(text) matches Some(read) ==> read.1.len() < text.len(),
{
    reveal(read_transaction);
    if let Some(t0) = after_word(text, start_tag("STMTTRN"@)) {
        lemma_read_text_element_rest(t0, "TRNTYPE"@);
        if let Some((_, t1)) = read_text_element(t0, "TRNTYPE"@) {
            lemma_read_text_element_rest(t1, "DTPOSTED"@);
            if let Some((_, t2)) = read_text_element(t1, "DTPOSTED"@) {
                lemma_read_text_element_rest(t2, "TRNAMT"@);
                if let Some((_, t3)) = read_text_element(t2, "TRNAMT"@) {
                    lemma_read_text_element_rest(t3, "FITID"@);
                    if let Some((_, t4)) = read_text_element(t3, "FITID"@) {
                        lemma_read_text_element_rest(t4, "MEMO"@);
                    }
                }
            }
        }
    }
}

/// The text of entries is the text of the first, then that of the others.
pub proof fn lemma_entries_first(first: TransactionView, others: Seq<TransactionView>)
    ensures
        entries_xml(seq![first] + others) == transaction_xml(first) + entries_xml(others),
    decreases others.len(),
{
    let all = seq![first] + others;
    if others.len() == 0 {
        reveal_with_fuel(entries_xml, 2);
        assert(all =~= seq![first]);
        assert(seq![first].drop_last() =~= Seq::<TransactionView>::empty());
        assert(entries_xml(seq![first]) =~= transaction_xml(first));
        assert(transaction_xml(first) + entries_xml(others) =~= transaction_xml(first));
    } else {
        assert(all.drop_last() =~= seq![first] + others.drop_last());
        assert(all.last() == others.last());
        lemma_entries_first(first, others.drop_last());
        assert(entries_xml(all) =~= transaction_xml(first) + entries_xml(others));
    }
}

/// Entries that were written are read back, up to whatever follows them
/// that is no entry.
pub proof fn lemma_read_entries(entries: Seq<TransactionView>, rest: Seq<char>)
    requires
        !start_tag("STMTTRN"@).is_prefix_of(rest),
    ensures
        read_entries(entries_xml(entries) + rest) == Some((entries, rest)),
    decreases entries.len(),
{
    if entries.len() == 0 {
        assert(entries_xml(entries) + rest =~= rest);
    } else {
        let first = entries[0];
        let others = entries.skip(1);
        assert(entries =~= seq![first] + others);
        lemma_entries_first(first, others);
        let tail = entries_xml(others) + rest;
        let whole = entries_xml(entries) + rest;
        assert(whole =~= transaction_xml(first) + tail);
        lemma_read_transaction(first, tail);
        lemma_read_entries(others, rest);
        let tag = start_tag("STMTTRN"@);
        assert(transaction_xml(first).subrange(0, tag.len() as int) =~= tag);
        assert(whole.subrange(0, tag.len() as int) =~= tag);
        assert(tail.len() < whole.len());
    }
}

/// A list of transactions that was written is read back.
pub proof fn lemma_read_transactions(list: TransactionsView, rest: Seq<char>)
    ensures
        read_transactions(transactions_xml(list) + rest) == Some((list, rest)),
{
    reveal(read_transactions);
    reveal(transactions_xml);
    let t3 = end_tag("BANKTRANLIST"@) + rest;
    let t2 = entries_xml(list.transactions) + t3;
    let t1 = text_element("DTEND"@, list.end) + t2;
    let t0 = text_element("DTSTART"@, list.start) + t1;
    assert(transactions_xml(list) + rest =~= start_tag("BANKTRANLIST"@) + t0);
    lemma_after_word(start_tag("BANKTRANLIST"@), t0);
    lemma_read_text_element("DTSTART"@, list.start, t1);
    lemma_read_text_element("DTEND"@, list.end, t2);
    assert(!start_tag("STMTTRN"@).is_prefix_of(t3)) by {
        assert(t3[1] == '/');
        if start_tag("STMTTRN"@).is_prefix_of(t3) {
            reveal_strlit("STMTTRN");
            assert(start_tag("STMTTRN"@)[1] == 'S');
            assert(t3.subrange(0, start_tag("STMTTRN"@).len() as int)[1] == t3[1]);
        }
    }
    lemma_read_entries(list.transactions, t3);
    lemma_after_word(end_tag("BANKTRANLIST"@), rest);
}

/// A status that was written is read back.
pub proof fn lemma_read_status(status: StatusView, rest: Seq<char>)
    requires
        status.code <= usize::MAX,
    ensures
        read_status(status_xml(status) + rest) == Some((status, rest)),
{
    reveal(read_status);
    reveal(status_xml);
    let t2 = end_tag("STATUS"@) + rest;
    let t1 = text_element("SEVERITY"@, status.severity) + t2;
    let t0 = element("CODE"@, decimal(status.code)) + t1;
    assert(status_xml(status) + rest =~= start_tag("STATUS"@) + t0);
    lemma_after_word(start_tag("STATUS"@), t0);
    lemma_read_number_element("CODE"@, status.code, t1);
    lemma_read_text_element("SEVERITY"@, status.severity, t2);
    lemma_after_word(end_tag("STATUS"@), rest);
}

/// A statement that was written is read back.
pub proof fn lemma_read_statement(name: Seq<char>, statement: StatementView, rest: Seq<char>)
    ensures
        read_statement(statement_xml(name, statement) + rest, name) == Some((statement, rest)),
{
    reveal(read_statement);
    reveal(statement_xml);
    let t5 = end_tag(name) + rest;
    let t4 = transactions_xml(statement.transactions) + t5;
    let t3 = end_tag("BANKACCTFROM"@) + t4;
    let t2 = text_element("BANKID"@, statement.bank_id) + t3;
    let t1 = start_tag("BANKACCTFROM"@) + t2;
    let t0 = text_element("CURDEF"@, statement.currency_code) + t1;
    assert(statement_xml(name, statement) + rest =~= start_tag(name) + t0);
    lemma_after_word(start_tag(name), t0);
    lemma_read_text_element("CURDEF"@, statement.currency_code, t1);
    lemma_after_word(start_tag("BANKACCTFROM"@), t2);
    lemma_read_text_element("BANKID"@, statement.bank_id, t3);
    lemma_after_word(end_tag("BANKACCTFROM"@), t4);
    lemma_read_transactions(statement.transactions, t5);
    lemma_after_word(end_tag(name), rest);
}

/// An answer that was written is read back.
pub proof fn lemma_read_response(
    name: Seq<char>,
    statement_name: Seq<char>,
    response: ResponseView,
    rest: Seq<char>,
)
    requires
        response.status.code <= usize::MAX,
    ensures
        read_response(response_xml(name, statement_name, response) + rest, name, statement_name)
            == Some((response, rest)),
{
    reveal(read_response);
    reveal(response_xml);
    let t3 = end_tag(name) + rest;
    let t2 = statement_xml(statement_name, response.statements) + t3;
    let t1 = status_xml(response.status) + t2;
    let t0 = text_element("TRNUID"@, response.transaction_id) + t1;
    assert(response_xml(name, statement_name, response) + rest =~= start_tag(name) + t0);
    lemma_after_word(start_tag(name), t0);
    lemma_read_text_element("TRNUID"@, response.transaction_id, t1);
    lemma_read_status(response.status, t2);
    lemma_read_statement(statement_name, response.statements, t3);
    lemma_after_word(end_tag(name), rest);
}

/// A message block that was written is read back.
pub proof fn lemma_read_message(
    name: Seq<char>,
    response_name: Seq<char>,
    statement_name: Seq<char>,
    response: Option<ResponseView>,
    rest: Seq<char>,
)
    requires
        response matches Some(r) ==> r.status.code <= usize::MAX,
    ensures
        read_message(
            message_xml(name, response_name, statement_name, response) + rest,
            name,
            response_name,
            statement_name,
        ) == Some((response, rest)),
{
    match response {
        None => {
            lemma_after_word(empty_element(name), rest);
        },
        Some(r) => {
            let t1 = end_tag(name) + rest;
            let t0 = response_xml(response_name, statement_name, r) + t1;
            let whole = message_xml(name, response_name, statement_name, response) + rest;
            assert(whole =~= start_tag(name) + t0);
            assert(!empty_element(name).is_prefix_of(whole)) by {
                let at: int = name.len() as int + 1;
                assert(whole[at] == '>');
                assert(empty_element(name)[at] == ' ');
                if empty_element(name).is_prefix_of(whole) {
                    assert(whole.subrange(0, empty_element(name).len() as int)[at] == whole[at]);
                }
            }
            lemma_after_word(start_tag(name), t0);
            lemma_read_response(response_name, statement_name, r, t1);
            lemma_after_word(end_tag(name), rest);
        },
    }
}

/// A document that is written and then read is the document that it was:
/// the same blocks, and in them the same currency, account, dates and
/// entries, field by field.
pub proof fn law_written_document_is_read_back(document: Ofx)
    ensures
        read_document(document_xml(document@)) == Some(document@),
{
    let view = document@;
    let t3 = end_tag("OFX"@);
    let t2 = message_xml("CREDITCARDMSGSRSV1"@, "CCSTMTTRNRS"@, "CCSTMTRS"@, view.credit_card)
        + t3;
    let t1 = message_xml("BANKMSGSRSV1"@, "STMTTRNRS"@, "STMTRS"@, view.bank) + t2;
    let t0 = start_tag("OFX"@) + t1;
    assert(document_xml(view) =~= XML_DECLARATION@ + t0);
    lemma_after_word(XML_DECLARATION@, t0);
    lemma_after_word(start_tag("OFX"@), t1);
    lemma_read_message("BANKMSGSRSV1"@, "STMTTRNRS"@, "STMTRS"@, view.bank, t2);
    lemma_read_message("CREDITCARDMSGSRSV1"@, "CCSTMTTRNRS"@, "CCSTMTRS"@, view.credit_card, t3);
    assert(t3 =~= t3 + Seq::<char>::empty());
    lemma_after_word(t3, Seq::<char>::empty());
}

fn transaction(reader: &mut Reader) -> (entry: Option<OfxTransaction>)
    ensures
        entry is Some <==> read_transaction(old(reader).rest()) is Some,
        entry matches Some(e) ==> read_transaction(old(reader).rest()) == Some(
            (e@, final(reader).rest()),
        ),
{
    reveal(read_transaction);
    if !reader.skip_start_tag("STMTTRN") {
        return None;
    }
    let type_ = match reader.text_element("TRNTYPE") {
        Some(text) => text,
        None => { return None; },
    };
    let timestamp = match reader.text_element("DTPOSTED") {
        Some(text) => text,
        None => { return None; },
    };
    let amount = match reader.text_element("TRNAMT") {
        Some(text) => text,
        None => { return None; },
    };
    let id = match reader.text_element("FITID") {
        Some(text) => text,
        None => { return None; },
    };
    let description = match reader.text_element("MEMO") {
        Some(text) => text,
        None => { return None; },
    };
    if !reader.skip_end_tag("STMTTRN") {
        return None;
    }
    Some(OfxTransaction { type_, timestamp, amount, id, description })
}

/// Entries in front of entries in front of what was read are all of them
/// in front of it.
proof fn lemma_with_entries_twice(
    a: Seq<TransactionView>,
    b: Seq<TransactionView>,
    read: Option<(Seq<TransactionView>, Seq<char>)>,
)
    ensures
        with_entries(a, with_entries(b, read)) == with_entries(a + b, read),
{
    if let Some((entries, rest)) = read {
        assert(a + (b + entries) =~= (a + b) + entries);
    }
}

fn entries(reader: &mut Reader) -> (list: Option<Vec<OfxTransactionVariant>>)
    ensures
        list is Some <==> read_entries(old(reader).rest()) is Some,
        list matches Some(l) ==> read_entries(old(reader).rest()) == Some(
            (l@.map_values(|t: OfxTransactionVariant| t@), final(reader).rest()),
        ),
{
    let tag = start_tag_of("STMTTRN");
    let mut list: Vec<OfxTransactionVariant> = Vec::new();
    let ghost start = reader.rest();
    assert(list@.map_values(|t: OfxTransactionVariant| t@) =~= Seq::<TransactionView>::empty());
    assert(Seq::<TransactionView>::empty() + Seq::<TransactionView>::empty()
        =~= Seq::<TransactionView>::empty());
    loop
        invariant
            tag@ == start_tag("STMTTRN"@),
            start == old(reader).rest(),
            read_entries(start) == with_entries(
                list@.map_values(|t: OfxTransactionVariant| t@),
                read_entries(reader.rest()),
            ),
        decreases reader.rest().len(),
    {
        let ghost before = list@.map_values(|t: OfxTransactionVariant| t@);
        let ghost text = reader.rest();
        if !reader.starts_with(&tag) {
            assert(before + Seq::<TransactionView>::empty() =~= before);
            return Some(list);
        }
        let entry = match transaction(reader) {
            Some(entry) => entry,
            None => { return None; },
        };
        proof {
            lemma_read_transaction_rest(text);
        }
        list.push(OfxTransactionVariant::Transaction(entry));
        proof {
            let after = list@.map_values(|t: OfxTransactionVariant| t@);
            assert(read_entries(text) == with_entries(seq![entry@], read_entries(reader.rest())));
            lemma_with_entries_twice(before, seq![entry@], read_entries(reader.rest()));
            assert(after =~= before + seq![entry@]);
        }
    }
}

fn transactions(reader: &mut Reader) -> (list: Option<OfxTransactions>)
    ensures
        list is Some <==> read_transactions(old(reader).rest()) is Some,
        list matches Some(l) ==> read_transactions(old(reader).rest()) == Some(
            (l@, final(reader).rest()),
        ),
{
    reveal(read_transactions);
    if !reader.skip_start_tag("BANKTRANLIST") {
        return None;
    }
    let start = match reader.text_element("DTSTART") {
        Some(text) => text,
        None => { return None; },
    };
    let end = match reader.text_element("DTEND") {
        Some(text) => text,
        None => { return None; },
    };
    let transactions = match entries(reader) {
        Some(list) => list,
        None => { return None; },
    };
    if !reader.skip_end_tag("BANKTRANLIST") {
        return None;
    }
    Some(OfxTransactions { start, end, transactions })
}

fn number_element(reader: &mut Reader, name: &str) -> (number: Option<usize>)
    ensures
        number is Some <==> read_number_element(old(reader).rest(), name@) is Some,
        number matches Some(n) ==> read_number_element(old(reader).rest(), name@) == Some(
            (n as nat, final(reader).rest()),
        ),
{
    let digits = match reader.text_element(name) {
        Some(text) => text,
        None => { return None; },
    };
    let chars = chars_of(digits.as_str());
    assert(chars@.skip(0) =~= digits@);
    match parse_digits(&chars, 0, usize::MAX as u64) {
        Some(n) => Some(n as usize),
        None => None,
    }
}

fn status(reader: &mut Reader) -> (status: Option<OfxStatementStatus>)
    ensures
        status is Some <==> read_status(old(reader).rest()) is Some,
        status matches Some(s) ==> read_status(old(reader).rest()) == Some(
            (s@, final(reader).rest()),
        ),
{
    reveal(read_status);
    if !reader.skip_start_tag("STATUS") {
        return None;
    }
    let code = match number_element(reader, "CODE") {
        Some(code) => code,
        None => { return None; },
    };
    let severity = match reader.text_element("SEVERITY") {
        Some(text) => text,
        None => { return None; },
    };
    if !reader.skip_end_tag("STATUS") {
        return None;
    }
    Some(OfxStatementStatus { code, severity })
}

fn statement(reader: &mut Reader, name: &str) -> (statement: Option<OfxStatement>)
    ensures
        statement is Some <==> read_statement(old(reader).rest(), name@) is Some,
        statement matches Some(s) ==> read_statement(old(reader).rest(), name@) == Some(
            (s@, final(reader).rest()),
        ),
{
    reveal(read_statement);
    if !reader.skip_start_tag(name) {
        return None;
    }
    let currency_code = match reader.text_element("CURDEF") {
        Some(text) => text,
        None => { return None; },
    };
    if !reader.skip_start_tag("BANKACCTFROM") {
        return None;
    }
    let bank_id = match reader.text_element("BANKID") {
        Some(text) => text,
        None => { return None; },
    };
    if !reader.skip_end_tag("BANKACCTFROM") {
        return None;
    }
    let transactions = match transactions(reader) {
        Some(list) => list,
        None => { return None; },
    };
    if !reader.skip_end_tag(name) {
        return None;
    }
    Some(OfxStatement { currency_code, bank_account: OfxBankAccount { bank_id }, transactions })
}

fn response(reader: &mut Reader, name: &str, statement_name: &str) -> (response: Option<
    OfxCreditCardStatement,
>)
    ensures
        response is Some <==> read_response(old(reader).rest(), name@, statement_name@) is Some,
        response matches Some(r) ==> read_response(old(reader).rest(), name@, statement_name@)
            == Some((r@, final(reader).rest())),
{
    reveal(read_response);
    if !reader.skip_start_tag(name) {
        return None;
    }
    let transaction_id = match reader.text_element("TRNUID") {
        Some(text) => text,
        None => { return None; },
    };
    let status = match status(reader) {
        Some(status) => status,
        None => { return None; },
    };
    let statements = match statement(reader, statement_name) {
        Some(statement) => statement,
        None => { return None; },
    };
    if !reader.skip_end_tag(name) {
        return None;
    }
    Some(OfxCreditCardStatement { transaction_id, status, statements })
}

fn message(reader: &mut Reader, name: &str, response_name: &str, statement_name: &str) -> (message:
    Option<Option<OfxCreditCardStatement>>)
    ensures
        message is Some <==> read_message(
            old(reader).rest(),
            name@,
            response_name@,
            statement_name@,
        ) is Some,
        message matches Some(m) ==> read_message(
            old(reader).rest(),
            name@,
            response_name@,
            statement_name@,
        ) == Some(
            (
                match m {
                    Some(r) => Some(r@),
                    None => None,
                },
                final(reader).rest(),
            ),
        ),
{
    if reader.skip_empty_element(name) {
        return Some(None);
    }
    if !reader.skip_start_tag(name) {
        return None;
    }
    let found = match response(reader, response_name, statement_name) {
        Some(found) => found,
        None => { return None; },
    };
    if !reader.skip_end_tag(name) {
        return None;
    }
    Some(Some(found))
}

impl Ofx {
    /// Reads a document from its text, as `to_ofx` writes it. A text that
    /// `to_ofx` could not have written is no document.
    pub fn from_ofx(text: &str) -> (document: Option<Ofx>)
        ensures
            document is Some <==> read_document(text@) is Some,
            document matches Some(d) ==> read_document(text@) == Some(d@),
    {
        let mut reader = Reader::new(text);
        if !reader.skip_word(XML_DECLARATION) {
            return None;
        }
        if !reader.skip_start_tag("OFX") {
            return None;
        }
        let bank = match message(&mut reader, "BANKMSGSRSV1", "STMTTRNRS", "STMTRS") {
            Some(bank) => bank,
            None => { return None; },
        };
        let credit_card = match message(
            &mut reader,
            "CREDITCARDMSGSRSV1",
            "CCSTMTTRNRS",
            "CCSTMTRS",
        ) {
            Some(card) => card,
            None => { return None; },
        };
        if !reader.skip_end_tag("OFX") {
            return None;
        }
        if !reader.at_end() {
            return None;
        }
        Some(
            Ofx {
                bank: match bank {
                    Some(r) => Some(
                        OfxBanking {
                            statement: OfxBankingStatement {
                                transaction_id: r.transaction_id,
                                status: r.status,
                                statements: r.statements,
                            },
                        },
                    ),
                    None => None,
                },
                credit_card: match credit_card {
                    Some(statement) => Some(OfxCreditCard { statement }),
                    None => None,
                },
            },
        )
    }
}

} // verus!
