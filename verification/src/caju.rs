//! The provider Caju: what it answers, how its statement is asked for page
//! by page, and how its items become a statement document.

use crate::calendar::{iso_date_text, month_bounds, month_days, ofx_date_text, Date, Month, Timestamp, Ymd};
use crate::error::Error;
use crate::http::{bearer, bearer_value, json_string, pair, push_json_string, Method, Pair, PairView, Request, RequestView};
use crate::text::{decimal, push_decimal, push_text};
use crate::ofx::{card_document, Ofx, OfxTransaction, OfxTransactionVariant, OfxView, TransactionView};
use crate::text::{money, money_text, same_text};
use vstd::prelude::*;

verus! {

/// The name under which this provider's account stands in a document.
pub const PROVIDER_NAME: &'static str = "Caju";

/// The answer to a login.
#[derive(Debug, Clone, PartialEq, Eq)]
pub struct LoginResponse {
    pub bearer_token: String,
}

/// One page of a statement.
#[derive(Debug, Clone, PartialEq, Eq)]
pub struct StatementResponse {
    /// Whether the server has more pages after this one.
    pub has_next: bool,
    pub items: Vec<StatementResponseItem>,
}

/// An item of a page, with the cursor that leads to what follows it.
#[derive(Debug, Clone, PartialEq, Eq)]
pub struct StatementResponseItem {
    pub cursor: Option<String>,
    pub item: StatementItem,
}

/// One movement on the card, as the provider reports it.
#[derive(Debug, Clone, PartialEq, Eq)]
pub struct StatementItem {
    pub id: Option<String>,
    /// `"CREDIT"`, `"DEBIT"` or another word.
    pub action: Option<String>,
    /// The amount in hundredths of a real.
    pub amount: Option<i64>,
    pub status: Option<StatementItemStatus>,
    pub created_at: Timestamp,
    pub data: Option<StatementItemData>,
    pub normalized_name: Option<String>,
}

/// How far a movement has come.
#[derive(Debug, Clone, Copy, PartialEq, Eq, Structural)]
pub enum StatementItemStatus {
    Confirmed,
    Refunded,
    Pending,
}

/// What the provider knows of the other side of a movement.
#[derive(Debug, Clone, PartialEq, Eq)]
pub struct StatementItemData {
    pub merchant_name: Option<String>,
    pub operation_type: Option<String>,
}

impl StatementItem {
    /// Whether the movement is settled. Only settled movements stand in a
    /// document.
    pub open spec fn is_settled(self) -> bool {
        self.status == Some(StatementItemStatus::Confirmed)
    }

    /// Whether the movement takes money from the account: its action is
    /// `"DEBIT"`, or it has none.
    pub open spec fn is_debit(self) -> bool {
        match self.action {
            Some(action) => action@ == "DEBIT"@,
            None => true,
        }
    }

    /// The amount in hundredths, zero where the provider gave none.
    pub open spec fn hundredths(self) -> int {
        match self.amount {
            Some(amount) => amount as int,
            None => 0,
        }
    }

    /// The amount as the document carries it. A debit is written with a
    /// minus sign and any other movement without one; where the provider
    /// reports an amount below zero, the sign is the other one.
    pub open spec fn amount_text(self) -> Seq<char> {
        let amount = self.hundredths();
        if amount < 0 {
            money_text(!self.is_debit(), (-amount) as nat)
        } else {
            money_text(self.is_debit(), amount as nat)
        }
    }

    /// The merchant's name, where the provider gave one.
    pub open spec fn merchant(self) -> Option<Seq<char>> {
        match self.data {
            Some(data) => match data.merchant_name {
                Some(name) => Some(name@),
                None => None,
            },
            None => None,
        }
    }

    /// What the document says the movement was: the merchant's name, or
    /// else a deposit for a credit and `"unknown"` for anything else.
    pub open spec fn description(self) -> Seq<char> {
        match self.merchant() {
            Some(name) => name,
            None => match self.action {
                Some(action) => if action@ == "CREDIT"@ {
                    "Depósito em conta"@
                } else {
                    "unknown"@
                },
                None => "unknown"@,
            },
        }
    }

    /// The movement as an entry of a document.
    pub open spec fn transaction(self) -> TransactionView {
        TransactionView {
            type_: match self.action {
                Some(action) => action@,
                None => "DEBIT"@,
            },
            timestamp: ofx_date_text(self.created_at@.date),
            amount: self.amount_text(),
            id: match self.id {
                Some(id) => id@,
                None => Seq::empty(),
            },
            description: self.description(),
        }
    }

    fn settled(&self) -> (settled: bool)
        ensures
            settled == self.is_settled(),
    {
        match self.status {
            Some(StatementItemStatus::Confirmed) => true,
            _ => false,
        }
    }

    fn debit(&self) -> (debit: bool)
        ensures
            debit == self.is_debit(),
    {
        match &self.action {
            Some(action) => same_text(action.as_str(), "DEBIT"),
            None => true,
        }
    }

    fn amount_string(&self) -> (text: String)
        ensures
            text@ == self.amount_text(),
    {
        let amount: i64 = match self.amount {
            Some(amount) => amount,
            None => 0,
        };
        let debit = self.debit();
        if amount < 0 {
            let magnitude: u64 = if amount == i64::MIN {
                9223372036854775808u64
            } else {
                (-amount) as u64
            };
            money(!debit, magnitude)
        } else {
            money(debit, amount as u64)
        }
    }

    fn describe(&self) -> (text: String)
        ensures
            text@ == self.description(),
    {
        match &self.data {
            Some(data) => match &data.merchant_name {
                Some(name) => { return name.clone(); },
                None => {},
            },
            None => {},
        }
        match &self.action {
            Some(action) => if same_text(action.as_str(), "CREDIT") {
                "Depósito em conta".to_owned()
            } else {
                "unknown".to_owned()
            },
            None => "unknown".to_owned(),
        }
    }

    fn to_transaction(&self) -> (entry: OfxTransaction)
        ensures
            entry@ == self.transaction(),
    {
        OfxTransaction {
            type_: match &self.action {
                Some(action) => action.clone(),
                None => "DEBIT".to_owned(),
            },
            timestamp: self.created_at.ofx_date(),
            amount: self.amount_string(),
            id: match &self.id {
                Some(id) => id.clone(),
                None => String::new(),
            },
            description: self.describe(),
        }
    }
}

/// The entries of a document: the settled movements, in the order in which
/// they came.
pub open spec fn settled_entries(items: Seq<StatementItem>) -> Seq<TransactionView> {
    items.filter(settled()).map_values(|item: StatementItem| item.transaction())
}

/// The test that a movement is settled.
pub open spec fn settled() -> spec_fn(StatementItem) -> bool {
    |item: StatementItem| item.is_settled()
}

/// The document of a statement. Its two dates are those of the first and of
/// the last movement as they came, settled or not.
pub open spec fn statement_document(items: Seq<StatementItem>) -> OfxView {
    card_document(
        PROVIDER_NAME@,
        ofx_date_text(items.first().created_at@.date),
        ofx_date_text(items.last().created_at@.date),
        settled_entries(items),
    )
}

/// Makes the document of a statement.
///
/// Without any movement there is no document. With movements of which none
/// is settled there is one, without entries.
pub fn convert(items: &Vec<StatementItem>) -> (document: Result<Ofx, Error>)
    ensures
        items@.len() == 0 ==> document == Err::<Ofx, Error>(Error::EmptyStatement),
        items@.len() > 0 ==> document is Ok && document->Ok_0@ == statement_document(items@),
{
    let count: usize = items.len();
    if count == 0 {
        return Err(Error::EmptyStatement);
    }
    let start = items[0].created_at.ofx_date();
    let end = items[count - 1].created_at.ofx_date();
    let mut entries: Vec<OfxTransactionVariant> = Vec::new();
    let mut i: usize = 0;
    while i < count
        invariant
            i <= count,
            count == items@.len(),
            entries@.map_values(|t: OfxTransactionVariant| t@) == settled_entries(
                items@.take(i as int),
            ),
        decreases count - i,
    {
        let item = &items[i];
        if item.settled() {
            entries.push(OfxTransactionVariant::Transaction(item.to_transaction()));
        }
        proof {
            lemma_settled_entries_push(items@.take(i as int), *item);
            assert(items@.take(i + 1) =~= items@.take(i as int).push(*item));
            assert(entries@.map_values(|t: OfxTransactionVariant| t@) =~= settled_entries(
                items@.take(i + 1),
            ));
        }
        i = i + 1;
    }
    assert(items@.take(count as int) =~= items@);
    Ok(Ofx::card_statement(PROVIDER_NAME, start, end, entries))
}

impl TryFrom<Vec<StatementItem>> for Ofx {
    type Error = Error;

    /// Makes the document of a statement, as `convert` does.
    fn try_from(value: Vec<StatementItem>) -> (document: Result<Ofx, Error>)
        ensures
            value@.len() == 0 ==> document == Err::<Ofx, Error>(Error::EmptyStatement),
            value@.len() > 0 ==> document is Ok && document->Ok_0@ == statement_document(value@),
    {
        convert(&value)
    }
}

impl vstd::std_specs::convert::TryFromSpecImpl<Vec<StatementItem>> for Ofx {
    open spec fn obeys_try_from_spec() -> bool {
        false
    }

    open spec fn try_from_spec(v: Vec<StatementItem>) -> Result<Ofx, Error> {
        Err(Error::EmptyStatement)
    }
}

/// The number of items that one page is asked to hold.
pub const PAGE_SIZE: usize = 20;

/// What a page of a statement is asked with.
#[derive(Debug, Clone, PartialEq, Eq)]
pub struct StatementQuery {
    pub limit: usize,
    pub cursor: Option<String>,
    pub start_date: Option<Date>,
    pub end_date: Option<Date>,
}

impl StatementQuery {
    /// The same query from the given cursor on, or from the start.
    pub fn with_cursor(self, cursor: Option<String>) -> (query: Self)
        ensures
            query == (StatementQuery { cursor, ..self }),
    {
        let mut query = self;
        query.cursor = cursor;
        query
    }

    /// The same query for the days from the first to the second of the
    /// pair, or for all days.
    pub fn with_date_range(self, range: Option<(Date, Date)>) -> (query: Self)
        ensures
            range matches Some(days) ==> query == (StatementQuery {
                start_date: Some(days.0),
                end_date: Some(days.1),
                ..self
            }),
            range is None ==> query == (StatementQuery { start_date: None, end_date: None, ..self }),
    {
        let mut query = self;
        match range {
            Some((start_date, end_date)) => {
                query.start_date = Some(start_date);
                query.end_date = Some(end_date);
            },
            None => {
                query.start_date = None;
                query.end_date = None;
            },
        }
        query
    }

    /// The same query for pages of up to `limit` items.
    pub fn with_limit(self, limit: usize) -> (query: Self)
        ensures
            query == (StatementQuery { limit, ..self }),
    {
        let mut query = self;
        query.limit = limit;
        query
    }
}

impl Default for StatementQuery {
    /// Two items from the start, of any day.
    fn default() -> (query: Self)
        ensures
            query == (StatementQuery { limit: 2, cursor: None, start_date: None, end_date: None }),
    {
        StatementQuery { limit: 2, cursor: None, start_date: None, end_date: None }
    }
}

/// The text of a text that may be missing: empty where it is.
pub open spec fn text_or_empty(text: Option<String>) -> Seq<char> {
    match text {
        Some(text) => text@,
        None => Seq::empty(),
    }
}

/// The date with hyphens, or nothing where there is no date.
pub open spec fn date_or_empty(date: Option<Date>) -> Seq<char> {
    match date {
        Some(date) => iso_date_text(date@),
        None => Seq::empty(),
    }
}

/// The five parameters of a query, in the order in which they are sent.
/// A missing cursor and a missing date are sent as empty texts, and the
/// order is always descending.
pub open spec fn query_pairs(query: StatementQuery) -> Seq<PairView> {
    seq![
        PairView { name: "limit"@, value: decimal(query.limit as nat) },
        PairView { name: "cursor"@, value: text_or_empty(query.cursor) },
        PairView { name: "order"@, value: "DESC"@ },
        PairView { name: "start_date"@, value: date_or_empty(query.start_date) },
        PairView { name: "end_date"@, value: date_or_empty(query.end_date) },
    ]
}

/// What a client is: where the provider is, whose statement is asked for,
/// and the token of the session once there is one.
pub struct CajuClientView {
    pub base_url: Seq<char>,
    pub user_id: Seq<char>,
    pub employee_id: Seq<char>,
    pub bearer_token: Option<Seq<char>>,
}

/// A client of the provider. It makes the requests and takes the answers;
/// the caller sends the ones and brings the others.
pub struct CajuClient {
    base_url: String,
    user_id: String,
    employee_id: String,
    bearer_token: Option<String>,
}

impl View for CajuClient {
    type V = CajuClientView;

    closed spec fn view(&self) -> CajuClientView {
        CajuClientView {
            base_url: self.base_url@,
            user_id: self.user_id@,
            employee_id: self.employee_id@,
            bearer_token: match self.bearer_token {
                Some(token) => Some(token@),
                None => None,
            },
        }
    }
}

/// The authorization header of a session, once there is one.
pub open spec fn session_headers(token: Option<Seq<char>>) -> Seq<PairView> {
    match token {
        Some(token) => seq![PairView { name: "Authorization"@, value: bearer(token) }],
        None => Seq::empty(),
    }
}

/// The request that exchanges a token and a refresh token for the token of
/// a new session.
pub open spec fn login_request_view(
    client: CajuClientView,
    existing_auth: Seq<char>,
    refresh_token: Seq<char>,
) -> RequestView {
    RequestView {
        method: Method::Post,
        url: client.base_url + "/v1/user/"@ + client.user_id + "/bearer_token"@,
        query: Seq::empty(),
        headers: seq![PairView { name: "Authorization"@, value: bearer(existing_auth) }],
        body: Some("{\"refreshToken\":"@ + json_string(refresh_token) + "}"@),
    }
}

/// The request for one page of the statement.
pub open spec fn statement_request_view(
    client: CajuClientView,
    query: StatementQuery,
) -> RequestView {
    RequestView {
        method: Method::Get,
        url: client.base_url + "/v1/employee/"@ + client.employee_id + "/statement"@,
        query: query_pairs(query),
        headers: session_headers(client.bearer_token),
        body: None,
    }
}

impl CajuClient {
    /// A client without a session.
    pub fn new(base_url: String, user_id: String, employee_id: String) -> (client: Self)
        ensures
            client@ == (CajuClientView {
                base_url: base_url@,
                user_id: user_id@,
                employee_id: employee_id@,
                bearer_token: None,
            }),
    {
        CajuClient { base_url, user_id, employee_id, bearer_token: None }
    }

    /// The request that opens a session.
    pub fn login_request(&self, existing_auth: &str, refresh_token: &str) -> (request: Request)
        ensures
            request@ == login_request_view(self@, existing_auth@, refresh_token@),
    {
        let mut url = String::new();
        push_text(&mut url, self.base_url.as_str());
        push_text(&mut url, "/v1/user/");
        push_text(&mut url, self.user_id.as_str());
        push_text(&mut url, "/bearer_token");
        let mut body = String::new();
        push_text(&mut body, "{\"refreshToken\":");
        push_json_string(&mut body, refresh_token);
        push_text(&mut body, "}");
        let mut headers: Vec<Pair> = Vec::new();
        headers.push(pair("Authorization", bearer_value(existing_auth)));
        let request = Request {
            method: Method::Post,
            url,
            query: Vec::new(),
            headers,
            body: Some(body),
        };
        proof {
            let wanted = login_request_view(self@, existing_auth@, refresh_token@);
            assert(request@.url =~= wanted.url);
            assert(request@.query =~= wanted.query);
            assert(request@.headers =~= wanted.headers);
            assert(request@.body->0 =~= wanted.body->0);
        }
        request
    }

    /// Takes the answer to a login. With an answer the session is open and
    /// every later request carries its token; without one nothing changes.
    pub fn login(&mut self, answer: Result<LoginResponse, Error>) -> (outcome: Result<
        LoginResponse,
        Error,
    >)
        ensures
            outcome == answer,
            answer matches Ok(response) ==> final(self)@ == (CajuClientView {
                bearer_token: Some(response.bearer_token@),
                ..old(self)@
            }),
            answer is Err ==> final(self)@ == old(self)@,
    {
        match answer {
            Ok(response) => {
                self.bearer_token = Some(response.bearer_token.clone());
                Ok(response)
            },
            Err(error) => Err(error),
        }
    }

    /// The token of the session, once there is one.
    pub fn bearer_token(&self) -> (token: Option<&String>)
        ensures
            token is Some <==> self@.bearer_token is Some,
            token matches Some(t) ==> self@.bearer_token == Some(t@),
    {
        self.bearer_token.as_ref()
    }

    /// The request for one page of the statement.
    pub fn statement_request(&self, query: &StatementQuery) -> (request: Request)
        ensures
            request@ == statement_request_view(self@, *query),
    {
        let mut url = String::new();
        push_text(&mut url, self.base_url.as_str());
        push_text(&mut url, "/v1/employee/");
        push_text(&mut url, self.employee_id.as_str());
        push_text(&mut url, "/statement");
        let mut limit = String::new();
        push_decimal(&mut limit, query.limit as u64);
        let mut pairs: Vec<Pair> = Vec::new();
        pairs.push(pair("limit", limit));
        pairs.push(
            pair(
                "cursor",
                match &query.cursor {
                    Some(cursor) => cursor.clone(),
                    None => String::new(),
                },
            ),
        );
        pairs.push(pair("order", "DESC".to_owned()));
        pairs.push(
            pair(
                "start_date",
                match &query.start_date {
                    Some(date) => date.iso(),
                    None => String::new(),
                },
            ),
        );
        pairs.push(
            pair(
                "end_date",
                match &query.end_date {
                    Some(date) => date.iso(),
                    None => String::new(),
                },
            ),
        );
        let mut headers: Vec<Pair> = Vec::new();
        match &self.bearer_token {
            Some(token) => {
                headers.push(pair("Authorization", bearer_value(token.as_str())));
            },
            None => {},
        }
        let request = Request { method: Method::Get, url, query: pairs, headers, body: None };
        proof {
            let wanted = statement_request_view(self@, *query);
            assert(request@.url =~= wanted.url);
            assert(request@.query =~= wanted.query);
            assert(request@.headers =~= wanted.headers);
        }
        request
    }

    /// Takes the answer to a request for a page: the page as it was read,
    /// or why the body could not be read. What could not be read becomes an
    /// error that carries the body.
    pub fn get_statement(&self, body: String, page: Result<StatementResponse, String>) -> (outcome:
        Result<StatementResponse, Error>)
        ensures
            page matches Ok(p) ==> outcome == Ok::<StatementResponse, Error>(p),
            page matches Err(reason) ==> outcome == Err::<StatementResponse, Error>(
                Error::Parse { reason, body },
            ),
    {
        match page {
            Ok(page) => Ok(page),
            Err(reason) => Err(Error::Parse { reason, body }),
        }
    }
}

/// The items of a page, without their cursors.
pub open spec fn page_items(page: StatementResponse) -> Seq<StatementItem> {
    page.items@.map_values(|entry: StatementResponseItem| entry.item)
}

/// Whether a page is the last to be asked for: the server has no more, or
/// the page is empty.
pub open spec fn is_last_page(page: StatementResponse) -> bool {
    !page.has_next || page.items@.len() == 0
}

/// How far the fetch of one month's statement has come.
pub struct MonthStatementView {
    /// The first day of the month.
    pub first_day: Ymd,
    /// The last day of the month.
    pub last_day: Ymd,
    /// Where the next page starts: the cursor of the last item so far.
    pub cursor: Option<String>,
    /// The items so far, in the order in which they came.
    pub items: Seq<StatementItem>,
    /// Whether the last page has come.
    pub finished: bool,
}

impl MonthStatementView {
    /// The fetch after one more page. The page's items follow those that
    /// came before, the cursor moves to the page's last item, and the fetch
    /// is finished where the page is the last. A page that comes after the
    /// last changes nothing.
    pub open spec fn after_page(self, page: StatementResponse) -> MonthStatementView {
        if self.finished {
            self
        } else if page.items@.len() == 0 {
            MonthStatementView { finished: true, ..self }
        } else {
            MonthStatementView {
                cursor: page.items@.last().cursor,
                items: self.items + page_items(page),
                finished: !page.has_next,
                ..self
            }
        }
    }

    /// The fetch after the given pages, one after the other.
    pub open spec fn after_pages(self, pages: Seq<StatementResponse>) -> MonthStatementView
        decreases pages.len(),
    {
        if pages.len() == 0 {
            self
        } else {
            self.after_pages(pages.drop_last()).after_page(pages.last())
        }
    }

    /// The query for the next page, and none once the fetch is finished.
    pub open spec fn next_query(self) -> Option<StatementQueryView> {
        if self.finished {
            None
        } else {
            Some(
                StatementQueryView {
                    limit: PAGE_SIZE as nat,
                    cursor: self.cursor,
                    start_date: Some(self.first_day),
                    end_date: Some(self.last_day),
                },
            )
        }
    }
}

/// What a page is asked with, the dates as numbers.
pub struct StatementQueryView {
    pub limit: nat,
    pub cursor: Option<String>,
    pub start_date: Option<Ymd>,
    pub end_date: Option<Ymd>,
}

impl View for StatementQuery {
    type V = StatementQueryView;

    open spec fn view(&self) -> StatementQueryView {
        StatementQueryView {
            limit: self.limit as nat,
            cursor: self.cursor,
            start_date: match self.start_date {
                Some(date) => Some(date@),
                None => None,
            },
            end_date: match self.end_date {
                Some(date) => Some(date@),
                None => None,
            },
        }
    }
}

/// The items of all the pages, one page after the other.
pub open spec fn all_items(pages: Seq<StatementResponse>) -> Seq<StatementItem>
    decreases pages.len(),
{
    if pages.len() == 0 {
        Seq::empty()
    } else {
        all_items(pages.drop_last()) + page_items(pages.last())
    }
}

/// The fetch of one month's statement, page by page. The caller asks it for
/// the next query, sends that, and hands the page back, until there is no
/// next query.
pub struct MonthStatement {
    first_day: Date,
    last_day: Date,
    cursor: Option<String>,
    items: Vec<StatementItem>,
    finished: bool,
}

impl View for MonthStatement {
    type V = MonthStatementView;

    closed spec fn view(&self) -> MonthStatementView {
        MonthStatementView {
            first_day: self.first_day@,
            last_day: self.last_day@,
            cursor: self.cursor,
            items: self.items@,
            finished: self.finished,
        }
    }
}

/// The fetch of a month before its first page.
pub open spec fn month_start(year: int, month: Month) -> Result<MonthStatementView, Error> {
    match month_bounds(year, month) {
        Ok(days) => Ok(
            MonthStatementView {
                first_day: days.0,
                last_day: days.1,
                cursor: None,
                items: Seq::empty(),
                finished: false,
            },
        ),
        Err(error) => Err(Error::Calendar(error)),
    }
}

impl CajuClient {
    /// Starts the fetch of one month's statement. Without a year the month
    /// is that of `current_year`.
    pub fn get_month_statement(&self, year: Option<i32>, current_year: i32, month: Month) -> (fetch:
        Result<MonthStatement, Error>)
        ensures
            ({
                let start = month_start(
                    match year {
                        Some(y) => y as int,
                        None => current_year as int,
                    },
                    month,
                );
                &&& fetch is Ok <==> start is Ok
                &&& fetch matches Ok(f) ==> start == Ok::<MonthStatementView, Error>(f@)
                &&& fetch matches Err(e) ==> start == Err::<MonthStatementView, Error>(e)
            }),
    {
        let year: i32 = match year {
            Some(year) => year,
            None => current_year,
        };
        match month_days(year, month) {
            Ok((first_day, last_day)) => Ok(
                MonthStatement {
                    first_day,
                    last_day,
                    cursor: None,
                    items: Vec::new(),
                    finished: false,
                },
            ),
            Err(error) => Err(Error::Calendar(error)),
        }
    }
}

impl MonthStatement {
    /// Whether the last page has come.
    pub fn is_finished(&self) -> (finished: bool)
        ensures
            finished == self@.finished,
    {
        self.finished
    }

    /// The query for the next page: twenty items of the month, from the
    /// cursor of the last item so far. None once the fetch is finished.
    pub fn next_query(&self) -> (query: Option<StatementQuery>)
        ensures
            query is Some <==> !self@.finished,
            query matches Some(q) ==> self@.next_query() == Some(q@),
    {
        if self.finished {
            None
        } else {
            let cursor = match &self.cursor {
                Some(cursor) => Some(cursor.clone()),
                None => None,
            };
            Some(
                StatementQuery::default().with_date_range(
                    Some((self.first_day, self.last_day)),
                ).with_cursor(cursor).with_limit(PAGE_SIZE),
            )
        }
    }

    /// Takes the page that answers the last query.
    pub fn accept(&mut self, page: StatementResponse)
        ensures
            final(self)@ == old(self)@.after_page(page),
    {
        if self.finished {
            return ;
        }
        let count: usize = page.items.len();
        if count == 0 {
            self.finished = true;
            return ;
        }
        self.cursor = match &page.items[count - 1].cursor {
            Some(cursor) => Some(cursor.clone()),
            None => None,
        };
        self.finished = !page.has_next;
        let ghost before = self.items@;
        let ghost whole = page;
        for entry in rest: page.items.into_iter()
            invariant
                rest.seq() == whole.items@,
                self.items@ == before + page_items(whole).take(rest.index() as int),
                self.first_day == old(self).first_day,
                self.last_day == old(self).last_day,
                self.cursor == whole.items@.last().cursor,
                self.finished == !whole.has_next,
        {
            self.items.push(entry.item);
            assert(self.items@ =~= before + page_items(whole).take(rest.index() + 1));
        }
        assert(page_items(whole).take(whole.items@.len() as int) =~= page_items(whole));
    }

    /// The items that came, in the order in which they came.
    pub fn into_items(self) -> (items: Vec<StatementItem>)
        ensures
            items@ == self@.items,
    {
        self.items
    }
}

/// The settled entries of a list with one more movement at its end: one
/// more entry where that movement is settled, and the same entries where it
/// is not.
pub proof fn lemma_settled_entries_push(items: Seq<StatementItem>, item: StatementItem)
    ensures
        settled_entries(items.push(item)) == if item.is_settled() {
            settled_entries(items).push(item.transaction())
        } else {
            settled_entries(items)
        },
{
    reveal(Seq::filter);
    assert(items.push(item).drop_last() =~= items);
    if item.is_settled() {
        assert(settled_entries(items.push(item)) =~= settled_entries(items).push(
            item.transaction(),
        ));
    }
}

/// A document has exactly one entry for each movement that is settled.
pub proof fn law_one_entry_per_settled_item(items: Seq<StatementItem>)
    ensures
        statement_document(items).credit_card->0.statements.transactions.transactions.len()
            == items.filter(settled()).len(),
{
}

/// Of an amount that is not below zero, a debit is written with a minus
/// sign in front and every other movement without one; what follows is the
/// whole reais, a point, and the hundredths in exactly two digits.
pub proof fn law_amount_sign(item: StatementItem)
    requires
        item.hundredths() >= 0,
    ensures
        ({
            let amount = item.hundredths() as nat;
            let magnitude = decimal(amount / 100) + seq!['.'] + seq![
                crate::text::digit_char((amount % 100 / 10) as int),
                crate::text::digit_char((amount % 10) as int),
            ];
            &&& item.is_debit() ==> item.amount_text() == seq!['-'] + magnitude
            &&& !item.is_debit() ==> item.amount_text() == magnitude
            &&& magnitude[0] != '-'
        }),
{
    let amount = item.hundredths() as nat;
    crate::text::lemma_two_digits(amount % 100);
    crate::text::lemma_decimal_starts_with_digit(amount / 100, 1);
    let magnitude = decimal(amount / 100) + seq!['.'] + seq![
        crate::text::digit_char((amount % 100 / 10) as int),
        crate::text::digit_char((amount % 10) as int),
    ];
    assert(magnitude[0] == decimal(amount / 100)[0]);
    assert(money_text(false, amount) =~= magnitude);
    assert(money_text(true, amount) =~= seq!['-'] + magnitude);
}

/// Once a fetch is finished, further pages change nothing.
pub proof fn law_finished_fetch_stays(fetch: MonthStatementView, pages: Seq<StatementResponse>)
    requires
        fetch.finished,
    ensures
        fetch.after_pages(pages) == fetch,
    decreases pages.len(),
{
    if pages.len() > 0 {
        law_finished_fetch_stays(fetch, pages.drop_last());
    }
}

/// While no page is the last, the fetch holds the items of all the pages in
/// order, and goes on.
pub proof fn law_pages_are_concatenated(fetch: MonthStatementView, pages: Seq<StatementResponse>)
    requires
        !fetch.finished,
        forall|i: int| 0 <= i < pages.len() ==> !is_last_page(#[trigger] pages[i]),
    ensures
        fetch.after_pages(pages).items == fetch.items + all_items(pages),
        !fetch.after_pages(pages).finished,
        fetch.after_pages(pages).next_query() is Some,
    decreases pages.len(),
{
    if pages.len() > 0 {
        law_pages_are_concatenated(fetch, pages.drop_last());
        assert(!is_last_page(pages.last()));
        assert(fetch.after_pages(pages).items =~= fetch.items + all_items(pages));
    } else {
        assert(fetch.items =~= fetch.items + all_items(pages));
    }
}

/// The fetch stops exactly at the first page that is the last: it holds the
/// items of the pages up to and with that one, in order, it asks for no
/// further page, and whatever comes after that page is left out.
pub proof fn law_fetch_stops_at_last_page(
    fetch: MonthStatementView,
    pages: Seq<StatementResponse>,
    stop: int,
)
    requires
        !fetch.finished,
        0 <= stop < pages.len(),
        is_last_page(pages[stop]),
        forall|i: int| 0 <= i < stop ==> !is_last_page(#[trigger] pages[i]),
    ensures
        fetch.after_pages(pages).items == fetch.items + all_items(pages.take(stop + 1)),
        fetch.after_pages(pages).finished,
        fetch.after_pages(pages).next_query() is None,
    decreases pages.len(),
{
    if stop == pages.len() - 1 {
        let before = pages.drop_last();
        assert forall|i: int| 0 <= i < before.len() implies !is_last_page(#[trigger] before[i]) by {
            assert(before[i] == pages[i]);
        }
        law_pages_are_concatenated(fetch, before);
        assert(pages.take(stop + 1) =~= pages);
        let reached = fetch.after_pages(before);
        assert(reached.after_page(pages.last()).items =~= fetch.items + all_items(pages));
    } else {
        let before = pages.drop_last();
        assert(before[stop] == pages[stop]);
        assert forall|i: int| 0 <= i < stop implies !is_last_page(#[trigger] before[i]) by {
            assert(before[i] == pages[i]);
        }
        law_fetch_stops_at_last_page(fetch, before, stop);
        assert(before.take(stop + 1) =~= pages.take(stop + 1));
    }
}

/// After a login every request for a page carries the token of the
/// session, and before one it carries none.
pub proof fn law_login_authorizes_requests(
    client: CajuClientView,
    token: Seq<char>,
    query: StatementQuery,
)
    ensures
        statement_request_view(CajuClientView { bearer_token: None, ..client }, query).headers
            == Seq::<PairView>::empty(),
        statement_request_view(
            CajuClientView { bearer_token: Some(token), ..client },
            query,
        ).headers == seq![PairView { name: "Authorization"@, value: bearer(token) }],
{
}

} // verus!
