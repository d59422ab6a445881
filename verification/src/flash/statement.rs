//! The statement of a month: how it is asked for, what comes back, and how
//! that becomes a statement document.

use super::auth::{AuthState, AuthView};
use super::{FlashClient, FlashClientView};
use crate::calendar::{
    iso_millis_text, month_bounds, month_days, ofx_date_text, Moment, Month, Timestamp,
};
use crate::error::Error;
use crate::http::{
    bearer, bearer_value, json_string, pair, push_json_string, Method, Pair, PairView, Request,
    RequestView,
};
use crate::ofx::{card_document, Ofx, OfxTransaction, OfxTransactionVariant, OfxView, TransactionView};
use crate::text::{money, money_text, push_text};
use vstd::prelude::*;

verus! {

/// Where statements are asked for.
pub const FLASH_BFF_URL: &'static str = "https://corporate-card-bff.us.flashapp.services/bff/trpc";

/// The name under which this provider's account stands in a document.
pub const PROVIDER_NAME: &'static str = "Flash";

/// How far a transaction has come. The provider reports settled ones only.
#[derive(Debug, Clone, Copy, PartialEq, Eq, Structural)]
pub enum FlashTransactionStatus {
    Completed,
}

/// Which way the money went.
#[derive(Debug, Clone, Copy, PartialEq, Eq, Structural)]
pub enum TransactionType {
    /// Money came onto the card.
    Deposit,
    /// Money was spent with the card.
    OpenLoopPayment,
}

/// One transaction, as the provider reports it.
#[derive(Debug, Clone, PartialEq, Eq)]
pub struct FlashTransaction {
    pub id: String,
    pub date: Timestamp,
    /// The amount in hundredths of a real.
    pub amount: u64,
    pub description: String,
    pub status: FlashTransactionStatus,
    pub type_: TransactionType,
}

impl TransactionType {
    /// Whether the money left the card.
    pub open spec fn is_debit(self) -> bool {
        self == TransactionType::OpenLoopPayment
    }

    /// The word for the type in a document.
    pub open spec fn word(self) -> Seq<char> {
        match self {
            TransactionType::Deposit => "CREDIT"@,
            TransactionType::OpenLoopPayment => "DEBIT"@,
        }
    }
}

impl FlashTransaction {
    /// Whether the transaction is settled. Only settled transactions stand
    /// in a document.
    pub open spec fn is_settled(self) -> bool {
        self.status == FlashTransactionStatus::Completed
    }

    /// The amount as the document carries it: with a minus sign for money
    /// that left the card, without one for money that came.
    pub open spec fn amount_text(self) -> Seq<char> {
        money_text(self.type_.is_debit(), self.amount as nat)
    }

    /// The transaction as an entry of a document.
    pub open spec fn transaction(self) -> TransactionView {
        TransactionView {
            type_: self.type_.word(),
            timestamp: ofx_date_text(self.date@.date),
            amount: self.amount_text(),
            id: self.id@,
            description: self.description@,
        }
    }

    fn settled(&self) -> (settled: bool)
        ensures
            settled == self.is_settled(),
    {
        match self.status {
            FlashTransactionStatus::Completed => true,
        }
    }

    fn to_transaction(&self) -> (entry: OfxTransaction)
        ensures
            entry@ == self.transaction(),
    {
        let debit = match self.type_ {
            TransactionType::Deposit => false,
            TransactionType::OpenLoopPayment => true,
        };
        OfxTransaction {
            type_: match self.type_ {
                TransactionType::Deposit => "CREDIT".to_owned(),
                TransactionType::OpenLoopPayment => "DEBIT".to_owned(),
            },
            timestamp: self.date.ofx_date(),
            amount: money(debit, self.amount),
            id: self.id.clone(),
            description: self.description.clone(),
        }
    }
}

/// The test that a transaction is settled.
pub open spec fn settled() -> spec_fn(FlashTransaction) -> bool {
    |item: FlashTransaction| item.is_settled()
}

/// The entries of a document: the settled transactions, in the order in
/// which they came.
pub open spec fn settled_entries(items: Seq<FlashTransaction>) -> Seq<TransactionView> {
    items.filter(settled()).map_values(|item: FlashTransaction| item.transaction())
}

/// The document of a statement. Its two dates are those of the first and of
/// the last transaction as they came.
pub open spec fn statement_document(items: Seq<FlashTransaction>) -> OfxView {
    card_document(
        PROVIDER_NAME@,
        ofx_date_text(items.first().date@.date),
        ofx_date_text(items.last().date@.date),
        settled_entries(items),
    )
}

/// The settled entries of a list with one more transaction at its end.
pub proof fn lemma_settled_entries_push(items: Seq<FlashTransaction>, item: FlashTransaction)
    ensures
        settled_entries(items.push(item)) == if item.is_settled() {
            settled_entries(items).push(item.transaction())
        } else {
            settled_entries(items)
        },
{
    reveal(Seq::filter);
    assert(items.push(item).drop_last() =~= items);
    if item.is_settled() {
        assert(settled_entries(items.push(item)) =~= settled_entries(items).push(
            item.transaction(),
        ));
    }
}

/// Makes the document of a statement. Without any transaction there is no
/// document.
pub fn convert(items: &Vec<FlashTransaction>) -> (document: Result<Ofx, Error>)
    ensures
        items@.len() == 0 ==> document == Err::<Ofx, Error>(Error::EmptyStatement),
        items@.len() > 0 ==> document is Ok && document->Ok_0@ == statement_document(items@),
{
    let count: usize = items.len();
    if count == 0 {
        return Err(Error::EmptyStatement);
    }
    let start = items[0].date.ofx_date();
    let end = items[count - 1].date.ofx_date();
    let mut entries: Vec<OfxTransactionVariant> = Vec::new();
    let mut i: usize = 0;
    while i < count
        invariant
            i <= count,
            count == items@.len(),
            entries@.map_values(|t: OfxTransactionVariant| t@) == settled_entries(
                items@.take(i as int),
            ),
        decreases count - i,
    {
        let item = &items[i];
        if item.settled() {
            entries.push(OfxTransactionVariant::Transaction(item.to_transaction()));
        }
        proof {
            lemma_settled_entries_push(items@.take(i as int), *item);
            assert(items@.take(i + 1) =~= items@.take(i as int).push(*item));
            assert(entries@.map_values(|t: OfxTransactionVariant| t@) =~= settled_entries(
                items@.take(i + 1),
            ));
        }
        i = i + 1;
    }
    assert(items@.take(count as int) =~= items@);
    Ok(Ofx::card_statement(PROVIDER_NAME, start, end, entries))
}

impl TryFrom<Vec<FlashTransaction>> for Ofx {
    type Error = Error;

    /// Makes the document of a statement, as `convert` does.
    fn try_from(value: Vec<FlashTransaction>) -> (document: Result<Ofx, Error>)
        ensures
            value@.len() == 0 ==> document == Err::<Ofx, Error>(Error::EmptyStatement),
            value@.len() > 0 ==> document is Ok && document->Ok_0@ == statement_document(value@),
    {
        convert(&value)
    }
}

impl vstd::std_specs::convert::TryFromSpecImpl<Vec<FlashTransaction>> for Ofx {
    open spec fn obeys_try_from_spec() -> bool {
        false
    }

    open spec fn try_from_spec(v: Vec<FlashTransaction>) -> Result<Ofx, Error> {
        Err(Error::EmptyStatement)
    }
}

/// A document has exactly one entry for each transaction that is settled,
/// and every transaction is.
pub proof fn law_one_entry_per_settled_item(items: Seq<FlashTransaction>)
    ensures
        statement_document(items).credit_card->0.statements.transactions.transactions.len()
            == items.filter(settled()).len(),
{
}

/// Money that left the card is written with a minus sign in front and money
/// that came without one; what follows is the whole reais, a point, and the
/// hundredths in exactly two digits.
pub proof fn law_amount_sign(item: FlashTransaction)
    ensures
        ({
            let amount = item.amount as nat;
            let magnitude = crate::text::decimal(amount / 100) + seq!['.'] + seq![
                crate::text::digit_char((amount % 100 / 10) as int),
                crate::text::digit_char((amount % 10) as int),
            ];
            &&& item.type_ == TransactionType::OpenLoopPayment ==> item.amount_text() == seq!['-']
                + magnitude
            &&& item.type_ == TransactionType::Deposit ==> item.amount_text() == magnitude
            &&& magnitude[0] != '-'
        }),
{
    let amount = item.amount as nat;
    crate::text::lemma_two_digits(amount % 100);
    crate::text::lemma_decimal_starts_with_digit(amount / 100, 1);
    let magnitude = crate::text::decimal(amount / 100) + seq!['.'] + seq![
        crate::text::digit_char((amount % 100 / 10) as int),
        crate::text::digit_char((amount % 10) as int),
    ];
    assert(magnitude[0] == crate::text::decimal(amount / 100)[0]);
    assert(money_text(false, amount) =~= magnitude);
    assert(money_text(true, amount) =~= seq!['-'] + magnitude);
}

/// The window of a month: from three o'clock on its first day, which is
/// midnight in Brazil, to the last second of its last day.
pub open spec fn month_window(year: int, month: Month) -> Result<(Moment, Moment), Error> {
    match month_bounds(year, month) {
        Ok(days) => Ok(
            (
                Moment { date: days.0, hour: 3, minute: 0, second: 0, nanosecond: 0 },
                Moment { date: days.1, hour: 23, minute: 59, second: 59, nanosecond: 0 },
            ),
        ),
        Err(error) => Err(Error::Calendar(error)),
    }
}

/// What the query for a statement says: a batch of one call, for the first
/// page of a hundred transactions between the two moments.
pub open spec fn statement_input(start: Moment, end: Moment) -> Seq<char> {
    "{\"0\":{\"json\":{\"filter\":{\"endDate\":"@ + json_string(iso_millis_text(end))
        + ",\"startDate\":"@ + json_string(iso_millis_text(start))
        + "},\"pagination\":{\"currentPage\":0,\"pageSize\":100}},\"meta\":{\"values\":{\"filter.endDate\":[\"Date\"],\"filter.startDate\":[\"Date\"]}}}}"@
}

/// The request for the statement between the two moments.
pub open spec fn statement_request_view(
    company_id: Seq<char>,
    token: Seq<char>,
    start: Moment,
    end: Moment,
) -> RequestView {
    RequestView {
        method: Method::Get,
        url: FLASH_BFF_URL@ + "/person.getStatement"@,
        query: seq![
            PairView { name: "batch"@, value: "1"@ },
            PairView { name: "input"@, value: statement_input(start, end) },
        ],
        headers: seq![
            PairView { name: "Authorization"@, value: token },
            PairView { name: "x-flash-auth"@, value: bearer(token) },
            PairView { name: "company-id"@, value: company_id },
        ],
        body: None,
    }
}

impl FlashClientView {
    /// What asks for the statement of a month: the request where the login
    /// is finished and the month has a first and a last day, an error
    /// otherwise. An unfinished login is the first thing to be reported.
    pub open spec fn get_month_statement(self, year: int, month: Month) -> Result<
        RequestView,
        Error,
    > {
        match self.auth {
            AuthView::Authenticated(token) => match month_window(year, month) {
                Ok(window) => Ok(
                    statement_request_view(self.company_id, token, window.0, window.1),
                ),
                Err(error) => Err(error),
            },
            _ => Err(Error::NotAuthenticated),
        }
    }
}

impl FlashClient {
    /// The request for the statement of a month, for the caller to send.
    /// Without a year the month is that of `current_year`. One page of a
    /// hundred transactions is asked for and no more: what a month has beyond
    /// that is not fetched.
    pub fn get_month_statement(&self, year: Option<i32>, current_year: i32, month: Month) -> (request:
        Result<Request, Error>)
        ensures
            ({
                let wanted = self@.get_month_statement(
                    match year {
                        Some(y) => y as int,
                        None => current_year as int,
                    },
                    month,
                );
                &&& request is Ok <==> wanted is Ok
                &&& request matches Ok(r) ==> wanted == Ok::<RequestView, Error>(r@)
                &&& request matches Err(e) ==> wanted == Err::<RequestView, Error>(e)
            }),
    {
        let auth = match self.auth() {
            AuthState::Authenticated(auth) => auth,
            _ => { return Err(Error::NotAuthenticated); },
        };
        let year: i32 = match year {
            Some(year) => year,
            None => current_year,
        };
        let (first_day, last_day) = match month_days(year, month) {
            Ok(days) => days,
            Err(error) => { return Err(Error::Calendar(error)); },
        };
        let start = first_day.and_time(3, 0, 0);
        let end = last_day.and_time(23, 59, 59);
        let mut input = String::new();
        push_text(&mut input, "{\"0\":{\"json\":{\"filter\":{\"endDate\":");
        push_json_string(&mut input, end.iso_millis().as_str());
        push_text(&mut input, ",\"startDate\":");
        push_json_string(&mut input, start.iso_millis().as_str());
        push_text(
            &mut input,
            "},\"pagination\":{\"currentPage\":0,\"pageSize\":100}},\"meta\":{\"values\":{\"filter.endDate\":[\"Date\"],\"filter.startDate\":[\"Date\"]}}}}",
        );
        let mut url = String::new();
        push_text(&mut url, FLASH_BFF_URL);
        push_text(&mut url, "/person.getStatement");
        let mut query: Vec<Pair> = Vec::new();
        query.push(pair("batch", "1".to_owned()));
        query.push(pair("input", input));
        let mut headers: Vec<Pair> = Vec::new();
        headers.push(pair("Authorization", auth.token.clone()));
        headers.push(pair("x-flash-auth", bearer_value(auth.token.as_str())));
        headers.push(pair("company-id", self.company_id().clone()));
        let request = Request { method: Method::Get, url, query, headers, body: None };
        proof {
            let wanted = statement_request_view(self@.company_id, auth.token@, start@, end@);
            assert(request@.url =~= wanted.url);
            assert(request@.query[1].value =~= wanted.query[1].value);
            assert(request@.query =~= wanted.query);
            assert(request@.headers =~= wanted.headers);
        }
        Ok(request)
    }
}

/// The transactions of an answer. The answer is a batch, one list of
/// transactions for each call, and the statement is the last of them. An
/// empty batch holds no transactions.
pub fn statement_items(batch: Vec<Vec<FlashTransaction>>) -> (items: Vec<FlashTransaction>)
    ensures
        batch@.len() == 0 ==> items@ == Seq::<FlashTransaction>::empty(),
        batch@.len() > 0 ==> items == batch@.last(),
{
    let mut batch = batch;
    match batch.pop() {
        Some(items) => items,
        None => Vec::new(),
    }
}

} // verus!
