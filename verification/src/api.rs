//! The query builder and the typed answer document.
//!
//! A [`DoH`] value holds the query name and the optional request parameters,
//! and [`DoH::build_url`] renders them as the request URL. [`Dns::decode`]
//! turns a response body into the typed answer document.

use vstd::prelude::*;
use vstd::string::StrSliceExecFns;
use vstd::string::StringExecFns;
use crate::error::Error;
use crate::json::Json;
use crate::json::lookup;
use crate::json::json_doc;
use crate::json::parse_json;
use crate::json::find_field;

verus! {

/// One question echoed back by the service.
#[derive(Debug, Clone)]
pub struct DnsQuestion {
    /// Fully qualified domain name, with its trailing dot.
    pub name: String,
    /// Standard DNS resource-record type code.
    pub record_type: u32,
}

/// One resource record of the answer.
#[derive(Debug, Clone)]
pub struct DnsAnswer {
    /// Standard DNS resource-record type code.
    pub record_type: u32,
    /// The record's time to live, in seconds.
    pub ttl: u32,
    /// The record's value, in its textual form for the record type.
    pub data: String,
}

/// One decoded answer document.
#[derive(Debug, Clone)]
pub struct Dns {
    /// The DNS response code; 0 means success.
    pub status: u32,
    /// Whether the response was truncated.
    pub tc: bool,
    /// Whether all response data was validated with DNSSEC.
    pub ad: bool,
    /// Whether the client asked to disable DNSSEC validation.
    pub cd: bool,
    /// The questions this answer responds to, in the order returned.
    pub question: Vec<DnsQuestion>,
    /// The matching records, absent when the service sent none.
    pub answer: Option<Vec<DnsAnswer>>,
    /// A free-text diagnostic from the service.
    pub comment: Option<String>,
}

/// The mathematical value of a [`DnsQuestion`].
pub struct QuestionV {
    pub name: Seq<char>,
    pub record_type: u32,
}

/// The mathematical value of a [`DnsAnswer`].
pub struct AnswerV {
    pub record_type: u32,
    pub ttl: u32,
    pub data: Seq<char>,
}

/// The mathematical value of a [`Dns`].
pub struct DnsV {
    pub status: u32,
    pub tc: bool,
    pub ad: bool,
    pub cd: bool,
    pub question: Seq<QuestionV>,
    pub answer: Option<Seq<AnswerV>>,
    pub comment: Option<Seq<char>>,
}

impl View for DnsQuestion {
    type V = QuestionV;

    open spec fn view(&self) -> QuestionV {
        QuestionV { name: self.name@, record_type: self.record_type }
    }
}

impl View for DnsAnswer {
    type V = AnswerV;

    open spec fn view(&self) -> AnswerV {
        AnswerV { record_type: self.record_type, ttl: self.ttl, data: self.data@ }
    }
}

/// The sequence of question values a vector of questions stands for.
pub open spec fn questions_view(v: Seq<DnsQuestion>) -> Seq<QuestionV> {
    Seq::new(v.len(), |i: int| v[i]@)
}

/// The sequence of answer values a vector of answers stands for.
pub open spec fn answers_view(v: Seq<DnsAnswer>) -> Seq<AnswerV> {
    Seq::new(v.len(), |i: int| v[i]@)
}

impl View for Dns {
    type V = DnsV;

    open spec fn view(&self) -> DnsV {
        DnsV {
            status: self.status,
            tc: self.tc,
            ad: self.ad,
            cd: self.cd,
            question: questions_view(self.question@),
            answer: match self.answer {
                Some(v) => Some(answers_view(v@)),
                None => None,
            },
            comment: match self.comment {
                Some(c) => Some(c@),
                None => None,
            },
        }
    }
}

/// One request's configuration: the query name, and each optional parameter
/// as present or absent.
#[derive(Debug, Clone)]
pub struct DoH<'a> {
    /// The service's root URL, normally the public endpoint.
    pub base_url: &'a str,
    /// The domain name to resolve.
    pub name: String,
    /// Resource-record type code; the service defaults it to 1 (an A record).
    pub record_type: Option<u32>,
    /// The checking-disabled flag: true turns DNSSEC validation off.
    pub cd: Option<bool>,
    /// The desired content type of the response body.
    pub ct: Option<String>,
    /// The DNSSEC OK flag: true asks for DNSSEC records in the response.
    /// The service reads it from the wire format only, so it is carried
    /// here but never rendered into the URL.
    pub dnssec_ok: Option<bool>,
    /// A client subnet hint, an IP address literal with a mask.
    pub edns_client_subnet: Option<String>,
}

/// The mathematical value of a [`DoH`] configuration.
pub struct DoHV {
    pub base_url: Seq<char>,
    pub name: Seq<char>,
    pub record_type: Option<u32>,
    pub cd: Option<bool>,
    pub ct: Option<Seq<char>>,
    pub dnssec_ok: Option<bool>,
    pub edns_client_subnet: Option<Seq<char>>,
}

impl<'a> View for DoH<'a> {
    type V = DoHV;

    open spec fn view(&self) -> DoHV {
        DoHV {
            base_url: self.base_url@,
            name: self.name@,
            record_type: self.record_type,
            cd: self.cd,
            ct: match self.ct {
                Some(s) => Some(s@),
                None => None,
            },
            dnssec_ok: self.dnssec_ok,
            edns_client_subnet: match self.edns_client_subnet {
                Some(s) => Some(s@),
                None => None,
            },
        }
    }
}

/// The textual form of a boolean parameter value.
pub open spec fn bool_seq(b: bool) -> Seq<char> {
    if b {
        "true"@
    } else {
        "false"@
    }
}

/// The decimal digit `d` as a character, for `d < 10`.
pub open spec fn dec_digit(d: nat) -> char {
    ((48 + d) as u8) as char
}

/// The decimal rendering of `n`, without a sign and without leading zeros.
pub open spec fn dec_seq(n: nat) -> Seq<char>
    decreases n,
{
    if n < 10 {
        seq![dec_digit(n)]
    } else {
        dec_seq(n / 10) + seq![dec_digit(n % 10)]
    }
}

/// The textual form of the checking-disabled parameter, when present.
pub open spec fn cd_text(v: Option<bool>) -> Option<Seq<char>> {
    match v {
        Some(b) => Some(bool_seq(b)),
        None => None,
    }
}

/// The textual form of the record-type parameter, when present.
pub open spec fn type_text(v: Option<u32>) -> Option<Seq<char>> {
    match v {
        Some(n) => Some(dec_seq(n as nat)),
        None => None,
    }
}

/// Zero or one query parameters: one `key`/`value` pair when the value is
/// present, none when it is absent.
pub open spec fn opt_param(key: Seq<char>, v: Option<Seq<char>>) -> Seq<(Seq<char>, Seq<char>)> {
    match v {
        Some(t) => seq![(key, t)],
        None => Seq::empty(),
    }
}

/// The query parameters a configuration renders, in their fixed order:
/// `name` first, then `cd`, `ct`, `edns_client_subnet` and `type`, each of
/// the optional four only when its field is present.
pub open spec fn params_of(d: DoHV) -> Seq<(Seq<char>, Seq<char>)> {
    seq![("name"@, d.name)] + opt_param("cd"@, cd_text(d.cd)) + opt_param("ct"@, d.ct)
        + opt_param("edns_client_subnet"@, d.edns_client_subnet)
        + opt_param("type"@, type_text(d.record_type))
}

/// One URL fragment: `prefix` followed by the value when present, nothing
/// when absent.
pub open spec fn frag(prefix: Seq<char>, v: Option<Seq<char>>) -> Seq<char> {
    match v {
        Some(t) => prefix + t,
        None => Seq::empty(),
    }
}

/// The request URL a configuration renders.
pub open spec fn url_of(d: DoHV) -> Seq<char> {
    d.base_url + "/resolve?name="@ + d.name + frag("&cd="@, cd_text(d.cd)) + frag("&ct="@, d.ct)
        + frag("&edns_client_subnet="@, d.edns_client_subnet)
        + frag("&type="@, type_text(d.record_type))
}

/// The decimal digit `d`, for `d < 10`, as text.
fn digit_str(d: u32) -> (r: &'static str)
    requires
        d < 10,
    ensures
        r@ == seq![dec_digit(d as nat)],
{
    let r: &'static str = if d == 0 {
        "0"
    } else if d == 1 {
        "1"
    } else if d == 2 {
        "2"
    } else if d == 3 {
        "3"
    } else if d == 4 {
        "4"
    } else if d == 5 {
        "5"
    } else if d == 6 {
        "6"
    } else if d == 7 {
        "7"
    } else if d == 8 {
        "8"
    } else {
        "9"
    };
    proof {
        reveal_strlit("0");
        reveal_strlit("1");
        reveal_strlit("2");
        reveal_strlit("3");
        reveal_strlit("4");
        reveal_strlit("5");
        reveal_strlit("6");
        reveal_strlit("7");
        reveal_strlit("8");
        reveal_strlit("9");
    }
    r
}

/// The decimal rendering of `n`, as [`dec_seq`] gives it.
pub fn u32_string(n: u32) -> (r: String)
    ensures
        r@ == dec_seq(n as nat),
    decreases n,
{
    if n < 10 {
        String::from_str(digit_str(n))
    } else {
        let mut s = u32_string(n / 10);
        s.append(digit_str(n % 10));
        s
    }
}

impl<'a> DoH<'a> {
    /// A configuration for resolving `name` at the public endpoint, with
    /// every optional parameter absent.
    pub fn new(name: String) -> (r: Self)
        ensures
            r.base_url@ == "https://dns.google"@,
            r.name == name,
            r.record_type is None,
            r.cd is None,
            r.ct is None,
            r.dnssec_ok is None,
            r.edns_client_subnet is None,
    {
        DoH {
            base_url: "https://dns.google",
            name,
            record_type: None,
            cd: None,
            ct: None,
            dnssec_ok: None,
            edns_client_subnet: None,
        }
    }

    /// The same configuration aimed at another service root.
    pub fn set_base_url(self, value: &'a str) -> (r: Self)
        ensures
            r == (DoH { base_url: value, ..self }),
    {
        DoH { base_url: value, ..self }
    }

    /// The same configuration with the desired content type set.
    pub fn set_ct(self, value: String) -> (r: Self)
        ensures
            r == (DoH { ct: Some(value), ..self }),
    {
        DoH { ct: Some(value), ..self }
    }

    /// The same configuration with the resource-record type set.
    pub fn set_type(self, value: u32) -> (r: Self)
        ensures
            r == (DoH { record_type: Some(value), ..self }),
    {
        DoH { record_type: Some(value), ..self }
    }

    /// The same configuration with the checking-disabled flag set.
    pub fn set_cd(self, value: bool) -> (r: Self)
        ensures
            r == (DoH { cd: Some(value), ..self }),
    {
        DoH { cd: Some(value), ..self }
    }

    /// The same configuration with the DNSSEC OK flag set.
    pub fn set_do(self, value: bool) -> (r: Self)
        ensures
            r == (DoH { dnssec_ok: Some(value), ..self }),
    {
        DoH { dnssec_ok: Some(value), ..self }
    }

    /// The same configuration with the client subnet hint set.
    pub fn set_edns_client_subnet(self, value: String) -> (r: Self)
        ensures
            r == (DoH { edns_client_subnet: Some(value), ..self }),
    {
        DoH { edns_client_subnet: Some(value), ..self }
    }

    /// The request URL for this configuration: the base URL, the fixed
    /// resolution path, the name, and one `&key=value` segment for each
    /// present optional parameter, in the fixed order of [`params_of`].
    /// Values are rendered in their natural textual form, unescaped.
    pub fn build_url(&self) -> (r: String)
        ensures
            r@ == url_of(self@),
    {
        let mut url = String::from_str(self.base_url);
        url.append("/resolve?name=");
        url.append(self.name.as_str());
        match &self.cd {
            Some(b) => {
                url.append("&cd=");
                url.append(if *b { "true" } else { "false" });
            },
            None => {},
        }
        match &self.ct {
            Some(v) => {
                url.append("&ct=");
                url.append(v.as_str());
            },
            None => {},
        }
        match &self.edns_client_subnet {
            Some(v) => {
                url.append("&edns_client_subnet=");
                url.append(v.as_str());
            },
            None => {},
        }
        match &self.record_type {
            Some(n) => {
                url.append("&type=");
                let t = u32_string(*n);
                url.append(t.as_str());
            },
            None => {},
        }
        proof {
            assert(url@ =~= url_of(self@));
        }
        url
    }
}

/// The `u32` a JSON value stands for: a number no larger than `u32::MAX`.
pub open spec fn as_u32(o: Option<Json>) -> Option<u32> {
    match o {
        Some(Json::Num(n)) => if n <= u32::MAX as u64 {
            Some(n as u32)
        } else {
            None
        },
        _ => None,
    }
}

/// The boolean a JSON value stands for.
pub open spec fn as_bool(o: Option<Json>) -> Option<bool> {
    match o {
        Some(Json::Bool(b)) => Some(b),
        _ => None,
    }
}

/// The text a JSON value stands for.
pub open spec fn as_text(o: Option<Json>) -> Option<Seq<char>> {
    match o {
        Some(Json::Str(s)) => Some(s@),
        _ => None,
    }
}

/// The question one JSON value stands for: an object with a textual `name`
/// and a numeric `type`.
pub open spec fn question_of(j: Json) -> Option<QuestionV> {
    match j {
        Json::Obj(fs) => match (as_text(lookup(fs@, "name"@)), as_u32(lookup(fs@, "type"@))) {
            (Some(n), Some(t)) => Some(QuestionV { name: n, record_type: t }),
            _ => None,
        },
        _ => None,
    }
}

/// The questions a sequence of JSON values stands for; nothing if any one
/// of them is no question.
pub open spec fn questions_of(items: Seq<Json>) -> Option<Seq<QuestionV>>
    decreases items.len(),
{
    if items.len() == 0 {
        Some(Seq::empty())
    } else {
        match (question_of(items[0]), questions_of(items.drop_first())) {
            (Some(q), Some(rest)) => Some(seq![q] + rest),
            _ => None,
        }
    }
}

/// The answer record one JSON value stands for: an object with a numeric
/// `type`, a numeric `TTL` and a textual `data`.
pub open spec fn answer_of(j: Json) -> Option<AnswerV> {
    match j {
        Json::Obj(fs) => match (
            as_u32(lookup(fs@, "type"@)),
            as_u32(lookup(fs@, "TTL"@)),
            as_text(lookup(fs@, "data"@)),
        ) {
            (Some(t), Some(ttl), Some(d)) => Some(AnswerV { record_type: t, ttl: ttl, data: d }),
            _ => None,
        },
        _ => None,
    }
}

/// The answer records a sequence of JSON values stands for; nothing if any
/// one of them is no answer record.
pub open spec fn answers_of(items: Seq<Json>) -> Option<Seq<AnswerV>>
    decreases items.len(),
{
    if items.len() == 0 {
        Some(Seq::empty())
    } else {
        match (answer_of(items[0]), answers_of(items.drop_first())) {
            (Some(a), Some(rest)) => Some(seq![a] + rest),
            _ => None,
        }
    }
}

/// The `Question` field's value: a present array of questions is required.
pub open spec fn questions_field(o: Option<Json>) -> Option<Seq<QuestionV>> {
    match o {
        Some(Json::Arr(items)) => questions_of(items@),
        _ => None,
    }
}

/// The `Answer` field's value: an absent or null field is a valid absence,
/// distinct from a present empty array.
pub open spec fn answers_field(o: Option<Json>) -> Option<Option<Seq<AnswerV>>> {
    match o {
        None => Some(None),
        Some(Json::Null) => Some(None),
        Some(Json::Arr(items)) => match answers_of(items@) {
            Some(s) => Some(Some(s)),
            None => None,
        },
        Some(_) => None,
    }
}

/// The `Comment` field's value: an absent or null field is a valid absence.
pub open spec fn comment_field(o: Option<Json>) -> Option<Option<Seq<char>>> {
    match o {
        None => Some(None),
        Some(Json::Null) => Some(None),
        Some(Json::Str(s)) => Some(Some(s@)),
        Some(_) => None,
    }
}

/// The answer document an object's fields stand for: `Status`, `TC`, `AD`,
/// `CD` and `Question` are required with their types, `Answer` and
/// `Comment` may be absent; any further field is ignored.
pub open spec fn dns_of_fields(f: Seq<(String, Json)>) -> Option<DnsV> {
    match (
        as_u32(lookup(f, "Status"@)),
        as_bool(lookup(f, "TC"@)),
        as_bool(lookup(f, "AD"@)),
        as_bool(lookup(f, "CD"@)),
        questions_field(lookup(f, "Question"@)),
        answers_field(lookup(f, "Answer"@)),
        comment_field(lookup(f, "Comment"@)),
    ) {
        (Some(status), Some(tc), Some(ad), Some(cd), Some(question), Some(answer), Some(comment)) => Some(
            DnsV { status, tc, ad, cd, question, answer, comment },
        ),
        _ => None,
    }
}

/// The answer document a JSON value stands for, if it is a well-formed one.
pub open spec fn dns_of(j: Json) -> Option<DnsV> {
    match j {
        Json::Obj(fields) => dns_of_fields(fields@),
        _ => None,
    }
}

/// The answer document a body text stands for: what its JSON document, if
/// it has one, stands for.
pub open spec fn decoded(s: Seq<char>) -> Option<DnsV> {
    match json_doc(s) {
        Some(j) => dns_of(j),
        None => None,
    }
}

impl DnsQuestion {
    /// The question a JSON value stands for, as [`question_of`] gives it.
    fn from_json(j: &Json) -> (r: Option<DnsQuestion>)
        ensures
            match r {
                Some(q) => question_of(*j) == Some(q@),
                None => question_of(*j) is None,
            },
    {
        let fields = match j {
            Json::Obj(fields) => fields,
            _ => {
                return None;
            },
        };
        let name = match find_field(fields, &String::from_str("name")) {
            Some(Json::Str(s)) => s.clone(),
            _ => {
                return None;
            },
        };
        let record_type = match find_field(fields, &String::from_str("type")) {
            Some(Json::Num(n)) => if *n <= u32::MAX as u64 {
                *n as u32
            } else {
                return None;
            },
            _ => {
                return None;
            },
        };
        Some(DnsQuestion { name, record_type })
    }
}

impl DnsAnswer {
    /// The answer record a JSON value stands for, as [`answer_of`] gives it.
    fn from_json(j: &Json) -> (r: Option<DnsAnswer>)
        ensures
            match r {
                Some(a) => answer_of(*j) == Some(a@),
                None => answer_of(*j) is None,
            },
    {
        let fields = match j {
            Json::Obj(fields) => fields,
            _ => {
                return None;
            },
        };
        let record_type = match find_field(fields, &String::from_str("type")) {
            Some(Json::Num(n)) => if *n <= u32::MAX as u64 {
                *n as u32
            } else {
                return None;
            },
            _ => {
                return None;
            },
        };
        let ttl = match find_field(fields, &String::from_str("TTL")) {
            Some(Json::Num(n)) => if *n <= u32::MAX as u64 {
                *n as u32
            } else {
                return None;
            },
            _ => {
                return None;
            },
        };
        let data = match find_field(fields, &String::from_str("data")) {
            Some(Json::Str(s)) => s.clone(),
            _ => {
                return None;
            },
        };
        Some(DnsAnswer { record_type, ttl, data })
    }
}

/// The questions standing in `items` from position `start` on, as
/// [`questions_of`] gives them.
fn questions_from_json(items: &Vec<Json>, start: usize) -> (r: Option<Vec<DnsQuestion>>)
    requires
        start <= items.len(),
    ensures
        match r {
            Some(v) => questions_of(items@.skip(start as int)) == Some(questions_view(v@)),
            None => questions_of(items@.skip(start as int)) is None,
        },
    decreases items.len() - start,
{
    if start == items.len() {
        let v: Vec<DnsQuestion> = Vec::new();
        proof {
            assert(items@.skip(start as int) =~= Seq::<Json>::empty());
            assert(questions_view(v@) =~= Seq::<QuestionV>::empty());
        }
        Some(v)
    } else {
        proof {
            assert(items@.skip(start as int)[0] == items@[start as int]);
            assert(items@.skip(start as int).drop_first() =~= items@.skip(start as int + 1));
        }
        let q = match DnsQuestion::from_json(&items[start]) {
            Some(q) => q,
            None => {
                return None;
            },
        };
        match questions_from_json(items, start + 1) {
            Some(mut rest) => {
                rest.insert(0, q);
                proof {
                    assert(questions_view(rest@) =~= seq![q@] + questions_view(
                        rest@.drop_first(),
                    ));
                }
                Some(rest)
            },
            None => None,
        }
    }
}

/// The answer records standing in `items` from position `start` on, as
/// [`answers_of`] gives them.
fn answers_from_json(items: &Vec<Json>, start: usize) -> (r: Option<Vec<DnsAnswer>>)
    requires
        start <= items.len(),
    ensures
        match r {
            Some(v) => answers_of(items@.skip(start as int)) == Some(answers_view(v@)),
            None => answers_of(items@.skip(start as int)) is None,
        },
    decreases items.len() - start,
{
    if start == items.len() {
        let v: Vec<DnsAnswer> = Vec::new();
        proof {
            assert(items@.skip(start as int) =~= Seq::<Json>::empty());
            assert(answers_view(v@) =~= Seq::<AnswerV>::empty());
        }
        Some(v)
    } else {
        proof {
            assert(items@.skip(start as int)[0] == items@[start as int]);
            assert(items@.skip(start as int).drop_first() =~= items@.skip(start as int + 1));
        }
        let a = match DnsAnswer::from_json(&items[start]) {
            Some(a) => a,
            None => {
                return None;
            },
        };
        match answers_from_json(items, start + 1) {
            Some(mut rest) => {
                rest.insert(0, a);
                proof {
                    assert(answers_view(rest@) =~= seq![a@] + answers_view(rest@.drop_first()));
                }
                Some(rest)
            },
            None => None,
        }
    }
}

impl Dns {
    /// The answer document a JSON value stands for, as [`dns_of`] gives it,
    /// or a decode failure.
    pub fn from_json(j: &Json) -> (r: Result<Dns, Error>)
        ensures
            match dns_of(*j) {
                Some(d) => r matches Ok(dns) && dns@ == d,
                None => r matches Err(e) && e is IO,
            },
    {
        let fields = match j {
            Json::Obj(fields) => fields,
            _ => {
                return Err(Error::IO(String::from_str("the body is not a JSON object")));
            },
        };
        let status = match find_field(fields, &String::from_str("Status")) {
            Some(Json::Num(n)) => if *n <= u32::MAX as u64 {
                *n as u32
            } else {
                return Err(Error::IO(String::from_str("the Status field is out of range")));
            },
            _ => {
                return Err(Error::IO(String::from_str("the Status field is missing or mistyped")));
            },
        };
        let tc = match find_field(fields, &String::from_str("TC")) {
            Some(Json::Bool(b)) => *b,
            _ => {
                return Err(Error::IO(String::from_str("the TC field is missing or mistyped")));
            },
        };
        let ad = match find_field(fields, &String::from_str("AD")) {
            Some(Json::Bool(b)) => *b,
            _ => {
                return Err(Error::IO(String::from_str("the AD field is missing or mistyped")));
            },
        };
        let cd = match find_field(fields, &String::from_str("CD")) {
            Some(Json::Bool(b)) => *b,
            _ => {
                return Err(Error::IO(String::from_str("the CD field is missing or mistyped")));
            },
        };
        let question = match find_field(fields, &String::from_str("Question")) {
            Some(Json::Arr(items)) => {
                proof {
                    assert(items@.skip(0) =~= items@);
                }
                match questions_from_json(items, 0) {
                    Some(v) => v,
                    None => {
                        return Err(
                            Error::IO(String::from_str("a Question entry is missing or mistyped")),
                        );
                    },
                }
            },
            _ => {
                return Err(
                    Error::IO(String::from_str("the Question field is missing or mistyped")),
                );
            },
        };
        let answer = match find_field(fields, &String::from_str("Answer")) {
            None => None,
            Some(Json::Null) => None,
            Some(Json::Arr(items)) => {
                proof {
                    assert(items@.skip(0) =~= items@);
                }
                match answers_from_json(items, 0) {
                    Some(v) => Some(v),
                    None => {
                        return Err(
                            Error::IO(String::from_str("an Answer entry is missing or mistyped")),
                        );
                    },
                }
            },
            Some(_) => {
                return Err(Error::IO(String::from_str("the Answer field is mistyped")));
            },
        };
        let comment = match find_field(fields, &String::from_str("Comment")) {
            None => None,
            Some(Json::Null) => None,
            Some(Json::Str(s)) => Some(s.clone()),
            Some(_) => {
                return Err(Error::IO(String::from_str("the Comment field is mistyped")));
            },
        };
        Ok(Dns { status, tc, ad, cd, question, answer, comment })
    }

    /// The answer document a body text stands for, as [`decoded`] gives it,
    /// or a decode failure naming the cause.
    pub fn decode(body: &str) -> (r: Result<Dns, Error>)
        ensures
            match decoded(body@) {
                Some(d) => r matches Ok(dns) && dns@ == d,
                None => r matches Err(e) && e is IO,
            },
    {
        match parse_json(body) {
            Ok(j) => Dns::from_json(&j),
            Err(e) => Err(Error::IO(e)),
        }
    }
}

/// How many of the parameters carry `key`.
pub open spec fn key_count(ps: Seq<(Seq<char>, Seq<char>)>, key: Seq<char>) -> int
    decreases ps.len(),
{
    if ps.len() == 0 {
        0
    } else {
        (if ps[0].0 == key {
            1int
        } else {
            0int
        }) + key_count(ps.drop_first(), key)
    }
}

/// How many optional parameters a configuration has present.
pub open spec fn present_count(d: DoHV) -> int {
    (if d.cd is Some {
        1int
    } else {
        0int
    }) + (if d.ct is Some {
        1int
    } else {
        0int
    }) + (if d.edns_client_subnet is Some {
        1int
    } else {
        0int
    }) + (if d.record_type is Some {
        1int
    } else {
        0int
    })
}

proof fn lemma_key_count_concat(
    a: Seq<(Seq<char>, Seq<char>)>,
    b: Seq<(Seq<char>, Seq<char>)>,
    key: Seq<char>,
)
    ensures
        key_count(a + b, key) == key_count(a, key) + key_count(b, key),
    decreases a.len(),
{
    if a.len() == 0 {
        assert(a + b =~= b);
    } else {
        assert((a + b).drop_first() =~= a.drop_first() + b);
        lemma_key_count_concat(a.drop_first(), b, key);
    }
}

proof fn lemma_key_count_single(p: (Seq<char>, Seq<char>), key: Seq<char>)
    ensures
        key_count(seq![p], key) == if p.0 == key {
            1int
        } else {
            0int
        },
{
    assert(seq![p][0] == p);
    assert(seq![p].drop_first() =~= Seq::<(Seq<char>, Seq<char>)>::empty());
    assert(key_count(Seq::<(Seq<char>, Seq<char>)>::empty(), key) == 0);
}

/// The count of `k` among a configuration's parameters: one for the name,
/// and one for each present optional field whose key is `k`.
proof fn lemma_params_key_count(d: DoHV, k: Seq<char>)
    ensures
        key_count(params_of(d), k) == (if "name"@ == k {
            1int
        } else {
            0int
        }) + (if d.cd is Some && "cd"@ == k {
            1int
        } else {
            0int
        }) + (if d.ct is Some && "ct"@ == k {
            1int
        } else {
            0int
        }) + (if d.edns_client_subnet is Some && "edns_client_subnet"@ == k {
            1int
        } else {
            0int
        }) + (if d.record_type is Some && "type"@ == k {
            1int
        } else {
            0int
        }),
{
    let ps_name = seq![("name"@, d.name)];
    let ps_cd = opt_param("cd"@, cd_text(d.cd));
    let ps_ct = opt_param("ct"@, d.ct);
    let ps_ecs = opt_param("edns_client_subnet"@, d.edns_client_subnet);
    let ps_type = opt_param("type"@, type_text(d.record_type));
    lemma_key_count_concat(ps_name + ps_cd + ps_ct + ps_ecs, ps_type, k);
    lemma_key_count_concat(ps_name + ps_cd + ps_ct, ps_ecs, k);
    lemma_key_count_concat(ps_name + ps_cd, ps_ct, k);
    lemma_key_count_concat(ps_name, ps_cd, k);
    lemma_key_count_single(("name"@, d.name), k);
    match d.cd {
        Some(b) => lemma_key_count_single(("cd"@, bool_seq(b)), k),
        None => {},
    }
    match d.ct {
        Some(t) => lemma_key_count_single(("ct"@, t), k),
        None => {},
    }
    match d.edns_client_subnet {
        Some(t) => lemma_key_count_single(("edns_client_subnet"@, t), k),
        None => {},
    }
    match d.record_type {
        Some(n) => lemma_key_count_single(("type"@, dec_seq(n as nat)), k),
        None => {},
    }
}

proof fn lemma_contains_concat_left(
    a: Seq<(Seq<char>, Seq<char>)>,
    b: Seq<(Seq<char>, Seq<char>)>,
    x: (Seq<char>, Seq<char>),
)
    requires
        a.contains(x),
    ensures
        (a + b).contains(x),
{
    let i = choose|i: int| 0 <= i < a.len() && a[i] == x;
    assert((a + b)[i] == x);
}

proof fn lemma_contains_concat_right(
    a: Seq<(Seq<char>, Seq<char>)>,
    b: Seq<(Seq<char>, Seq<char>)>,
    x: (Seq<char>, Seq<char>),
)
    requires
        b.contains(x),
    ensures
        (a + b).contains(x),
{
    let i = choose|i: int| 0 <= i < b.len() && b[i] == x;
    assert((a + b)[a.len() + i] == x);
}

/// With only the name set, the URL carries exactly the one `name`
/// parameter, and nothing else follows it.
pub proof fn lemma_url_name_only(d: DoHV)
    requires
        d.cd is None,
        d.ct is None,
        d.edns_client_subnet is None,
        d.record_type is None,
    ensures
        params_of(d) == seq![("name"@, d.name)],
        url_of(d) == d.base_url + "/resolve?name="@ + d.name,
{
    assert(params_of(d) =~= seq![("name"@, d.name)]);
    assert(url_of(d) =~= d.base_url + "/resolve?name="@ + d.name);
}

/// Each present optional field contributes exactly one parameter, each
/// absent one none; the `name` parameter is always there, always first; and
/// the DNSSEC OK flag is never rendered.
pub proof fn lemma_one_param_per_field(d: DoHV)
    ensures
        params_of(d).len() == 1 + present_count(d),
        params_of(d)[0] == ("name"@, d.name),
        key_count(params_of(d), "name"@) == 1,
        key_count(params_of(d), "cd"@) == (if d.cd is Some {
            1int
        } else {
            0int
        }),
        key_count(params_of(d), "ct"@) == (if d.ct is Some {
            1int
        } else {
            0int
        }),
        key_count(params_of(d), "edns_client_subnet"@) == (if d.edns_client_subnet is Some {
            1int
        } else {
            0int
        }),
        key_count(params_of(d), "type"@) == (if d.record_type is Some {
            1int
        } else {
            0int
        }),
        key_count(params_of(d), "do"@) == 0,
        d.cd matches Some(b) ==> params_of(d).contains(("cd"@, bool_seq(b))),
        d.ct matches Some(t) ==> params_of(d).contains(("ct"@, t)),
        d.edns_client_subnet matches Some(t) ==> params_of(d).contains(
            ("edns_client_subnet"@, t),
        ),
        d.record_type matches Some(n) ==> params_of(d).contains(("type"@, dec_seq(n as nat))),
{
    reveal_strlit("name");
    reveal_strlit("cd");
    reveal_strlit("ct");
    reveal_strlit("edns_client_subnet");
    reveal_strlit("type");
    reveal_strlit("do");
    assert("name"@.len() == 4);
    assert("cd"@.len() == 2);
    assert("ct"@.len() == 2);
    assert("edns_client_subnet"@.len() == 18);
    assert("type"@.len() == 4);
    assert("do"@.len() == 2);
    assert("cd"@[0] == 'c' && "cd"@[1] == 'd');
    assert("ct"@[0] == 'c' && "ct"@[1] == 't');
    assert("do"@[0] == 'd');
    assert("name"@[0] == 'n');
    assert("type"@[0] == 't');
    assert("name"@ != "cd"@ && "name"@ != "ct"@ && "name"@ != "edns_client_subnet"@ && "name"@
        != "type"@ && "name"@ != "do"@);
    assert("cd"@ != "ct"@ && "cd"@ != "edns_client_subnet"@ && "cd"@ != "type"@ && "cd"@
        != "do"@);
    assert("ct"@ != "edns_client_subnet"@ && "ct"@ != "type"@ && "ct"@ != "do"@);
    assert("edns_client_subnet"@ != "type"@ && "edns_client_subnet"@ != "do"@);
    assert("type"@ != "do"@);
    lemma_params_key_count(d, "name"@);
    lemma_params_key_count(d, "cd"@);
    lemma_params_key_count(d, "ct"@);
    lemma_params_key_count(d, "edns_client_subnet"@);
    lemma_params_key_count(d, "type"@);
    lemma_params_key_count(d, "do"@);
    let ps_name = seq![("name"@, d.name)];
    let ps_cd = opt_param("cd"@, cd_text(d.cd));
    let ps_ct = opt_param("ct"@, d.ct);
    let ps_ecs = opt_param("edns_client_subnet"@, d.edns_client_subnet);
    let ps_type = opt_param("type"@, type_text(d.record_type));
    assert(params_of(d)[0] == ps_name[0]);
    match d.cd {
        Some(b) => {
            let x = ("cd"@, bool_seq(b));
            assert(ps_cd[0] == x);
            assert(ps_cd.contains(x));
            lemma_contains_concat_right(ps_name, ps_cd, x);
            lemma_contains_concat_left(ps_name + ps_cd, ps_ct, x);
            lemma_contains_concat_left(ps_name + ps_cd + ps_ct, ps_ecs, x);
            lemma_contains_concat_left(ps_name + ps_cd + ps_ct + ps_ecs, ps_type, x);
        },
        None => {},
    }
    match d.ct {
        Some(t) => {
            let x = ("ct"@, t);
            assert(ps_ct[0] == x);
            assert(ps_ct.contains(x));
            lemma_contains_concat_right(ps_name + ps_cd, ps_ct, x);
            lemma_contains_concat_left(ps_name + ps_cd + ps_ct, ps_ecs, x);
            lemma_contains_concat_left(ps_name + ps_cd + ps_ct + ps_ecs, ps_type, x);
        },
        None => {},
    }
    match d.edns_client_subnet {
        Some(t) => {
            let x = ("edns_client_subnet"@, t);
            assert(ps_ecs[0] == x);
            assert(ps_ecs.contains(x));
            lemma_contains_concat_right(ps_name + ps_cd + ps_ct, ps_ecs, x);
            lemma_contains_concat_left(ps_name + ps_cd + ps_ct + ps_ecs, ps_type, x);
        },
        None => {},
    }
    match d.record_type {
        Some(n) => {
            let x = ("type"@, dec_seq(n as nat));
            assert(ps_type[0] == x);
            assert(ps_type.contains(x));
            lemma_contains_concat_right(ps_name + ps_cd + ps_ct + ps_ecs, ps_type, x);
        },
        None => {},
    }
}

/// The query-string rendering of parameters after the first: one
/// `&key=value` segment each.
pub open spec fn amp_params(ps: Seq<(Seq<char>, Seq<char>)>) -> Seq<char>
    decreases ps.len(),
{
    if ps.len() == 0 {
        Seq::empty()
    } else {
        "&"@ + ps[0].0 + "="@ + ps[0].1 + amp_params(ps.drop_first())
    }
}

/// The query-string rendering of a parameter list: `?` before the first
/// pair, `&` before each further one, nothing at all for an empty list.
pub open spec fn query_string(ps: Seq<(Seq<char>, Seq<char>)>) -> Seq<char> {
    if ps.len() == 0 {
        Seq::empty()
    } else {
        "?"@ + ps[0].0 + "="@ + ps[0].1 + amp_params(ps.drop_first())
    }
}

proof fn lemma_amp_params_concat(a: Seq<(Seq<char>, Seq<char>)>, b: Seq<(Seq<char>, Seq<char>)>)
    ensures
        amp_params(a + b) == amp_params(a) + amp_params(b),
    decreases a.len(),
{
    if a.len() == 0 {
        assert(a + b =~= b);
        assert(amp_params(a) == Seq::<char>::empty());
        assert(amp_params(a) + amp_params(b) =~= amp_params(b));
    } else {
        assert((a + b).drop_first() =~= a.drop_first() + b);
        lemma_amp_params_concat(a.drop_first(), b);
        assert(amp_params(a + b) =~= amp_params(a) + amp_params(b));
    }
}

proof fn lemma_amp_param(key: Seq<char>, prefix: Seq<char>, v: Option<Seq<char>>)
    requires
        prefix == "&"@ + key + "="@,
    ensures
        amp_params(opt_param(key, v)) == frag(prefix, v),
{
    match v {
        Some(t) => {
            let ps = opt_param(key, v);
            assert(ps[0] == (key, t));
            assert(ps.drop_first() =~= Seq::<(Seq<char>, Seq<char>)>::empty());
            assert(amp_params(ps.drop_first()) == Seq::<char>::empty());
            assert(amp_params(ps) =~= prefix + t);
        },
        None => {},
    }
}

/// The constructed URL is the base URL, the fixed resolution path, and
/// exactly the query string of [`params_of`] — nothing else.
#[verifier::rlimit(60)]
pub proof fn lemma_url_is_query_string(d: DoHV)
    ensures
        url_of(d) == d.base_url + "/resolve"@ + query_string(params_of(d)),
{
    reveal_strlit("&");
    reveal_strlit("=");
    reveal_strlit("?");
    reveal_strlit("name");
    reveal_strlit("cd");
    reveal_strlit("ct");
    reveal_strlit("edns_client_subnet");
    reveal_strlit("type");
    reveal_strlit("&cd=");
    reveal_strlit("&ct=");
    reveal_strlit("&edns_client_subnet=");
    reveal_strlit("&type=");
    reveal_strlit("/resolve");
    reveal_strlit("/resolve?name=");
    assert("&cd="@ =~= "&"@ + "cd"@ + "="@);
    assert("&ct="@ =~= "&"@ + "ct"@ + "="@);
    assert("&edns_client_subnet="@ =~= "&"@ + "edns_client_subnet"@ + "="@);
    assert("&type="@ =~= "&"@ + "type"@ + "="@);
    assert("/resolve?name="@ =~= "/resolve"@ + "?"@ + "name"@ + "="@);
    let ps_name = seq![("name"@, d.name)];
    let ps_cd = opt_param("cd"@, cd_text(d.cd));
    let ps_ct = opt_param("ct"@, d.ct);
    let ps_ecs = opt_param("edns_client_subnet"@, d.edns_client_subnet);
    let ps_type = opt_param("type"@, type_text(d.record_type));
    lemma_amp_param("cd"@, "&cd="@, cd_text(d.cd));
    lemma_amp_param("ct"@, "&ct="@, d.ct);
    lemma_amp_param("edns_client_subnet"@, "&edns_client_subnet="@, d.edns_client_subnet);
    lemma_amp_param("type"@, "&type="@, type_text(d.record_type));
    lemma_amp_params_concat(ps_cd, ps_ct);
    lemma_amp_params_concat(ps_cd + ps_ct, ps_ecs);
    lemma_amp_params_concat(ps_cd + ps_ct + ps_ecs, ps_type);
    let ps = params_of(d);
    assert(ps[0] == ("name"@, d.name));
    assert(ps.drop_first() =~= ps_cd + ps_ct + ps_ecs + ps_type);
    assert(query_string(ps) == "?"@ + "name"@ + "="@ + d.name + amp_params(ps_cd + ps_ct + ps_ecs + ps_type));
    assert(url_of(d) =~= d.base_url + "/resolve"@ + query_string(ps));
}

/// A document whose top-level object has no `Status` binding never decodes:
/// the body fails with a decode error rather than defaulting the field.
pub proof fn lemma_missing_status(s: Seq<char>, j: Json)
    requires
        json_doc(s) == Some(j),
        j matches Json::Obj(fields) && lookup(fields@, "Status"@) is None,
    ensures
        decoded(s) is None,
{
}

/// When a document decodes and its top-level object has no `Answer`
/// binding, the decoded answers are absent — not an empty sequence.
pub proof fn lemma_answer_absent(j: Json)
    requires
        dns_of(j) is Some,
        j matches Json::Obj(fields) && lookup(fields@, "Answer"@) is None,
    ensures
        dns_of(j) matches Some(d) && d.answer is None,
{
}

/// Decoding is a function of the body text alone: two bodies with equal
/// text decode to equal results.
pub proof fn lemma_decode_idempotent(s1: Seq<char>, s2: Seq<char>)
    requires
        s1 == s2,
    ensures
        decoded(s1) == decoded(s2),
{
}

} // verus!
