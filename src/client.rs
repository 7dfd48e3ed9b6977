//! The portal's records and the decisions of its protocol: which detail
//! endpoint a record is fetched from, what a detail response resolves to,
//! how a session is established, and the forms that each request posts.
#![allow(non_snake_case)]

use vstd::prelude::*;
use crate::text::str_eq;
use crate::wire::{extract_session_marker, marker_value};

verus! {

pub const LIST_HOST: &'static str = "https://www.open.go.kr/rqestMlrd/rqestDtls/reqstDocSrchList.ajax";
pub const LOGIN_PAGE: &'static str = "https://www.open.go.kr/com/login/memberLogin.do";
pub const LOGIN_HOST: &'static str = "https://www.open.go.kr/com/login/memberLogin.ajax";
pub const MAIN_PAGE: &'static str = "https://www.open.go.kr/com/main/mainView.do";
pub const DETAIL_HOST_FOR_NOT_OPENED: &'static str = "https://www.open.go.kr/rqestMlrd/rqestDtls/reqstDocDetail.do";
pub const DETAIL_HOST_FOR_OPENED: &'static str = "https://www.open.go.kr/rqestMlrd/rqestDtls/reqstDocDecsnNotie.do";
pub const DOWNLOAD_HOST: &'static str = "https://www.open.go.kr/util/FileDownload.do";

#[derive(Debug, Clone, PartialEq, Eq)]
pub struct AuthResponseModelAndViewModelResultRtnV0 {
    pub accesType: String,
    pub addr1: String,
    pub addr2: String,
    pub age: i32,
    pub agent: String,
    pub agentInfo: String,
    pub apoloId: String,
    pub birth: String,
    pub birthDe: String,
    pub bizrNo: String,
    pub bizrNo1: String,
    pub bizrNo2: String,
    pub bizrNo3: String,
    pub changePwdYn: String,
    pub crt: String,
}

#[derive(Debug, Clone, PartialEq, Eq)]
pub struct AuthResponseModelAndViewModelResult {
    pub error_code: String,
    pub error_msg: String,
    pub mberSeCd: String,
    pub sysdate: String,
    pub today: String,
}

#[derive(Debug, Clone, PartialEq, Eq)]
pub struct AuthResponseModelAndViewModel {
    pub result: AuthResponseModelAndViewModelResult,
}

#[derive(Debug, Clone, PartialEq, Eq)]
pub struct AuthResponseModelAndView {
    pub empty: bool,
    pub model: AuthResponseModelAndViewModel,
}

/// The answer of the login endpoint.
#[derive(Debug, Clone, PartialEq, Eq)]
pub struct AuthResponse {
    pub modelAndView: AuthResponseModelAndView,
}

/// The paging block of a listing answer: `totalPage` is the number of records.
#[derive(Debug, Clone, PartialEq, Eq)]
pub struct ListVo {
    pub totalPage: i32,
}

/// One disclosure request as the portal describes it.
#[derive(Debug, Clone, PartialEq, Eq)]
pub struct DtlVo {
    pub deptSn: String,
    pub clsdrResnCn: String,
    pub clsdrResnNm: String,
    pub chckerClsfNm: String,
    pub chckerFnm: String,
    pub dcrberFnm: String,
    pub dcrberClsfNm: String,
    pub dcanerFnm: String,
    pub dcanerClsfNm: String,
    pub drafterFnm: String,
    pub drafterClsfNm: String,
    pub sanctnDocNo: String,
    pub decsnCn: String,
    pub trnsfInsttNmCn: String,
    pub opetrId: String,
    pub opetrFnm: String,
    pub opetrDeptCd: String,
    pub opetrDeptNm: String,
    pub opetrClsfCd: String,
    pub opetrClsfNm: String,
    pub opetrCbleTelno: String,
    pub othinstSmtmProcessYn: String,
    pub othbcDtApnResnNm: String,
    pub othbcOprtnDt: String,
    pub othbcSeNm: String,
    pub othbcStleSeNm: String,
    pub othbcPrearngeDt: String,
    pub recptMthSeNm: String,
    pub recptnServerId: String,
    pub nticeDt: String,
    pub insttAddr: String,
    pub insttRqestProcStCd: String,
    pub insttRqestProcStNm: String,
    pub mberId: String,
    pub prcsInsttCd: String,
    pub prcsInsttNm: String,
    pub prcsFullInsttNm: String,
    pub procCn: String,
    pub procDt: String,
    pub procRegstrNo: String,
    pub procDeptCbleTelno: String,
    pub procUserEmailAdres: String,
    pub rceptDt: String,
    pub rqestCn: String,
    pub rqestDt: String,
    pub rqestFullInsttNm: String,
    pub rqestInsttCd: String,
    pub rqestInsttNm: String,
    pub rqestProcRegstrNo: String,
    pub rqestRceptNo: String,
    pub rqestSj: String,
}

/// A reference to one attachment on the portal; `(fileUploadNo, fileSn)` identifies it.
#[derive(Debug, Clone, PartialEq, Eq)]
pub struct DntcFile {
    pub atchmnflByteCo: String,
    pub atchmnflPrsrvNm: String,
    pub csdCnvrStCd: String,
    pub fileAbsltCoursNm: String,
    pub fileSn: String,
    pub fileUploadNo: String,
    pub frstRegisterId: String,
    pub uploadFileOrginlNm: String,
}

/// A detail record with its two lists of attachments.
#[derive(Debug, Clone, PartialEq, Eq)]
pub struct BillWithFiles {
    pub atchFileList: Option<Vec<DntcFile>>,
    pub dntcFileList: Option<Vec<DntcFile>>,
    pub dtlVo: DtlVo,
}

/// The shape a detail endpoint answers with when it sends the browser elsewhere.
#[derive(Debug, Clone, PartialEq, Eq)]
pub struct RedirectedBillWithFiles {
    pub redirectUrl: String,
}

/// What resolving a record's detail came to.
#[derive(Debug, Clone, PartialEq, Eq)]
pub enum BillReturnType {
    BillWithFiles(BillWithFiles),
    Redirected(RedirectedBillWithFiles),
    NoDetail,
}

/// One page of a listing.
#[derive(Debug, Clone, PartialEq, Eq)]
pub struct Bills {
    pub list: Vec<DtlVo>,
    pub vo: ListVo,
}

/// Failures of the protocol.
#[derive(Debug, Clone, PartialEq, Eq)]
pub enum ClientError {
    /// The page did not hold the statement the protocol reads.
    Protocol,
    /// The portal refused the credentials; its message.
    Authentication(String),
    /// A request that needs a session was asked for before login.
    NotAuthenticated,
    /// The transport failed.
    Network,
    /// An answer did not have the expected shape.
    Decode,
}

/// The two detail endpoints.
#[derive(Debug, Clone, Copy, PartialEq, Eq, Structural)]
pub enum DetailHost {
    Opened,
    NotOpened,
}

pub open spec fn other_host(h: DetailHost) -> DetailHost {
    match h {
        DetailHost::Opened => DetailHost::NotOpened,
        DetailHost::NotOpened => DetailHost::Opened,
    }
}

impl DetailHost {
    /// The endpoint's address.
    pub fn url(&self) -> (r: &'static str)
        ensures
            *self == DetailHost::Opened ==> r@ == DETAIL_HOST_FOR_OPENED@,
            *self == DetailHost::NotOpened ==> r@ == DETAIL_HOST_FOR_NOT_OPENED@,
    {
        match self {
            DetailHost::Opened => DETAIL_HOST_FOR_OPENED,
            DetailHost::NotOpened => DETAIL_HOST_FOR_NOT_OPENED,
        }
    }

    /// The endpoint that is tried when this one answered with an unreadable shape.
    pub fn other(&self) -> (r: DetailHost)
        ensures
            r == other_host(*self),
    {
        match self {
            DetailHost::Opened => DetailHost::NotOpened,
            DetailHost::NotOpened => DetailHost::Opened,
        }
    }
}

/// The status codes whose records the "opened / decision notice" endpoint serves.
pub open spec fn is_opened_code(c: Seq<char>) -> bool {
    ||| c == "141"@
    ||| c == "143"@
    ||| c == "1411"@
    ||| c == "1413"@
    ||| c == "1415"@
    ||| c == "1421"@
    ||| c == "163"@
    ||| c == "165"@
    ||| c == "1861"@
}

/// The status codes whose endpoint depends on the same-institution flag.
pub open spec fn is_conditional_code(c: Seq<char>) -> bool {
    c == "171"@ || c == "172"@
}

/// The endpoint for a record, and the department sequence that is posted to it.
pub open spec fn route_of(code: Seq<char>, flag: Seq<char>, dept_sn: Seq<char>) -> (DetailHost, Seq<char>) {
    if is_opened_code(code) {
        (DetailHost::Opened, dept_sn)
    } else if is_conditional_code(code) {
        if flag == "N"@ {
            (DetailHost::Opened, Seq::empty())
        } else {
            (DetailHost::NotOpened, Seq::empty())
        }
    } else {
        (DetailHost::NotOpened, dept_sn)
    }
}

/// Where a record's detail is asked for first.
#[derive(Debug, Clone, PartialEq, Eq)]
pub struct DetailRoute {
    pub host: DetailHost,
    pub dept_sn: String,
}

fn is_opened_code_exec(code: &str) -> (r: bool)
    ensures
        r == is_opened_code(code@),
{
    str_eq(code, "141") || str_eq(code, "143") || str_eq(code, "1411") || str_eq(code, "1413")
        || str_eq(code, "1415") || str_eq(code, "1421") || str_eq(code, "163") || str_eq(code, "165")
        || str_eq(code, "1861")
}

/// Chooses the detail endpoint for a record from its status code, its
/// same-institution flag and its department sequence.
pub fn select_route(status_code: &str, same_institution_flag: &str, dept_sn: &str) -> (r: DetailRoute)
    ensures
        r.host == route_of(status_code@, same_institution_flag@, dept_sn@).0,
        r.dept_sn@ == route_of(status_code@, same_institution_flag@, dept_sn@).1,
{
    if is_opened_code_exec(status_code) {
        DetailRoute { host: DetailHost::Opened, dept_sn: dept_sn.to_owned() }
    } else if str_eq(status_code, "171") || str_eq(status_code, "172") {
        let host = if str_eq(same_institution_flag, "N") {
            DetailHost::Opened
        } else {
            DetailHost::NotOpened
        };
        DetailRoute { host, dept_sn: String::new() }
    } else {
        DetailRoute { host: DetailHost::NotOpened, dept_sn: dept_sn.to_owned() }
    }
}

/// A form as the views of its `(name, value)` fields.
pub open spec fn form_view(f: Seq<(String, String)>) -> Seq<(Seq<char>, Seq<char>)> {
    f.map_values(|p: (String, String)| (p.0@, p.1@))
}

fn field(name: &str, value: &str) -> (r: (String, String))
    ensures
        r.0@ == name@,
        r.1@ == value@,
{
    (name.to_owned(), value.to_owned())
}

/// The eight fields a detail request posts.
pub open spec fn detail_form_of(reg: Seq<char>, code: Seq<char>, dept_sn: Seq<char>, scui: Seq<char>) -> Seq<(Seq<char>, Seq<char>)> {
    seq![
        ("rqestRceptNo"@, ""@),
        ("rqestProcRegstrNo"@, reg),
        ("procRegstrNo"@, reg),
        ("insttRqestProcStCd"@, code),
        ("deptSn"@, dept_sn),
        ("hash"@, "true"@),
        ("multiDeptProcYn"@, "N"@),
        ("scui"@, scui),
    ]
}

/// Host selection, case by case: the opened codes go to the opened endpoint
/// with their department sequence; `171` and `172` go to the opened endpoint
/// with an empty department sequence when the flag is `N`, and to the
/// not-opened endpoint otherwise; every other code goes to the not-opened
/// endpoint.
pub proof fn lemma_route_cases(code: Seq<char>, flag: Seq<char>, dept_sn: Seq<char>)
    ensures
        is_opened_code(code) ==> route_of(code, flag, dept_sn) == (DetailHost::Opened, dept_sn),
        is_conditional_code(code) && flag == "N"@ ==> route_of(code, flag, dept_sn) == (
            DetailHost::Opened,
            Seq::<char>::empty(),
        ),
        is_conditional_code(code) && flag != "N"@ ==> route_of(code, flag, dept_sn).0 == DetailHost::NotOpened,
        !is_opened_code(code) && !is_conditional_code(code) ==> route_of(code, flag, dept_sn).0
            == DetailHost::NotOpened,
{
    reveal_strlit("141");
    reveal_strlit("143");
    reveal_strlit("1411");
    reveal_strlit("1413");
    reveal_strlit("1415");
    reveal_strlit("1421");
    reveal_strlit("163");
    reveal_strlit("165");
    reveal_strlit("1861");
    reveal_strlit("171");
    reveal_strlit("172");
    if is_conditional_code(code) {
        assert(code.len() == 3 && code[1] == '7');
        assert("141"@[1] == '4' && "143"@[1] == '4' && "163"@[1] == '6' && "165"@[1] == '6');
        assert("1411"@.len() == 4 && "1413"@.len() == 4 && "1415"@.len() == 4);
        assert("1421"@.len() == 4 && "1861"@.len() == 4);
        assert(!is_opened_code(code));
    }
}

/// What a detail response held, once read: nothing, a detail record, a
/// redirect marker, or neither shape.
#[derive(Debug, Clone, PartialEq, Eq)]
pub enum ParsedPayload {
    Empty,
    Detail(BillWithFiles),
    Redirect(RedirectedBillWithFiles),
    Unparsable,
}

/// Which of the at most two fetches of a record is under way.
#[derive(Debug, Clone, Copy, PartialEq, Eq, Structural)]
pub enum Attempt {
    First,
    Second,
}

/// What the resolver does next: fetch from an endpoint, or stop with an outcome.
#[derive(Debug, Clone, PartialEq, Eq)]
pub enum ResolveStep {
    Fetch(DetailHost),
    Done(BillReturnType),
}

/// The resolver's transition: a detail record always ends it; on the first
/// fetch a redirect marker ends it as redirected and an unreadable shape sends
/// it to the other endpoint; anything but a detail on the second fetch, and an
/// empty answer on either, ends it with no detail.
pub open spec fn resolve_spec(attempt: Attempt, host: DetailHost, parsed: ParsedPayload) -> ResolveStep {
    match parsed {
        ParsedPayload::Detail(d) => ResolveStep::Done(BillReturnType::BillWithFiles(d)),
        ParsedPayload::Empty => ResolveStep::Done(BillReturnType::NoDetail),
        ParsedPayload::Redirect(r) => match attempt {
            Attempt::First => ResolveStep::Done(BillReturnType::Redirected(r)),
            Attempt::Second => ResolveStep::Done(BillReturnType::NoDetail),
        },
        ParsedPayload::Unparsable => match attempt {
            Attempt::First => ResolveStep::Fetch(other_host(host)),
            Attempt::Second => ResolveStep::Done(BillReturnType::NoDetail),
        },
    }
}

/// A redirect marker in the first answer ends the resolution as redirected,
/// carrying the marker, whatever the endpoint: it is neither a detail record
/// nor a second fetch.
pub proof fn lemma_redirect_is_distinguished(host: DetailHost, r: RedirectedBillWithFiles)
    ensures
        resolve_spec(Attempt::First, host, ParsedPayload::Redirect(r)) == ResolveStep::Done(
            BillReturnType::Redirected(r),
        ),
        !(resolve_spec(Attempt::First, host, ParsedPayload::Redirect(r)) matches ResolveStep::Done(
            BillReturnType::BillWithFiles(_),
        )),
{
}

/// A record with status `143` is fetched from the opened endpoint first, and
/// a well-formed detail there ends the resolution with no second fetch.
pub proof fn lemma_status_143_first_host(flag: Seq<char>, dept_sn: Seq<char>, d: BillWithFiles)
    ensures
        route_of("143"@, flag, dept_sn).0 == DetailHost::Opened,
        resolve_spec(Attempt::First, DetailHost::Opened, ParsedPayload::Detail(d)) == ResolveStep::Done(
            BillReturnType::BillWithFiles(d),
        ),
{
}

/// Whatever the answers, a resolution ends after at most two fetches: the
/// second fetch always ends it.
pub proof fn lemma_at_most_two_fetches(host: DetailHost, parsed: ParsedPayload)
    ensures
        resolve_spec(Attempt::Second, host, parsed) is Done,
{
}

/// One transition of the detail resolver.
pub fn resolve_step(attempt: Attempt, host: DetailHost, parsed: ParsedPayload) -> (r: ResolveStep)
    ensures
        r == resolve_spec(attempt, host, parsed),
{
    match parsed {
        ParsedPayload::Detail(d) => ResolveStep::Done(BillReturnType::BillWithFiles(d)),
        ParsedPayload::Empty => ResolveStep::Done(BillReturnType::NoDetail),
        ParsedPayload::Redirect(r) => match attempt {
            Attempt::First => ResolveStep::Done(BillReturnType::Redirected(r)),
            Attempt::Second => ResolveStep::Done(BillReturnType::NoDetail),
        },
        ParsedPayload::Unparsable => match attempt {
            Attempt::First => ResolveStep::Fetch(host.other()),
            Attempt::Second => ResolveStep::Done(BillReturnType::NoDetail),
        },
    }
}

/// The resolution of one record's detail: the record's keys, the endpoint of
/// the fetch under way and which fetch it is.
#[derive(Debug, Clone, PartialEq, Eq)]
pub struct DetailResolver {
    pub registration_proc_number: String,
    pub status_code: String,
    pub dept_sn: String,
    pub scui: String,
    pub host: DetailHost,
    pub attempt: Attempt,
}

impl DetailResolver {
    /// Starts at the endpoint that [`select_route`] chooses.
    pub fn new(
        registration_proc_number: &str,
        status_code: &str,
        same_institution_flag: &str,
        dept_sn: &str,
        scui: &str,
    ) -> (r: DetailResolver)
        ensures
            r.registration_proc_number@ == registration_proc_number@,
            r.status_code@ == status_code@,
            r.scui@ == scui@,
            r.host == route_of(status_code@, same_institution_flag@, dept_sn@).0,
            r.dept_sn@ == route_of(status_code@, same_institution_flag@, dept_sn@).1,
            r.attempt == Attempt::First,
    {
        let route = select_route(status_code, same_institution_flag, dept_sn);
        DetailResolver {
            registration_proc_number: registration_proc_number.to_owned(),
            status_code: status_code.to_owned(),
            dept_sn: route.dept_sn,
            scui: scui.to_owned(),
            host: route.host,
            attempt: Attempt::First,
        }
    }

    /// The form posted to the current endpoint.
    pub fn request_form(&self) -> (r: Vec<(String, String)>)
        ensures
            form_view(r@) == detail_form_of(
                self.registration_proc_number@,
                self.status_code@,
                self.dept_sn@,
                self.scui@,
            ),
    {
        let reg = self.registration_proc_number.as_str();
        let v = vec![
            field("rqestRceptNo", ""),
            field("rqestProcRegstrNo", reg),
            field("procRegstrNo", reg),
            field("insttRqestProcStCd", self.status_code.as_str()),
            field("deptSn", self.dept_sn.as_str()),
            field("hash", "true"),
            field("multiDeptProcYn", "N"),
            field("scui", self.scui.as_str()),
        ];
        assert(form_view(v@) == detail_form_of(
            self.registration_proc_number@,
            self.status_code@,
            self.dept_sn@,
            self.scui@,
        ));
        v
    }

    /// Takes what the current endpoint answered with and says what comes next;
    /// when that is a second fetch, the resolver moves to it.
    pub fn on_payload(&mut self, parsed: ParsedPayload) -> (r: ResolveStep)
        ensures
            r == resolve_spec(old(self).attempt, old(self).host, parsed),
            (r matches ResolveStep::Fetch(h) ==> final(self).host == h && final(self).attempt
                == Attempt::Second),
            !(r is Fetch) ==> *final(self) == *old(self),
            final(self).registration_proc_number == old(self).registration_proc_number,
            final(self).status_code == old(self).status_code,
            final(self).dept_sn == old(self).dept_sn,
            final(self).scui == old(self).scui,
    {
        let r = resolve_step(self.attempt, self.host, parsed);
        if let ResolveStep::Fetch(h) = &r {
            self.host = *h;
            self.attempt = Attempt::Second;
        }
        r
    }
}

/// How the login endpoint's message is read.
#[derive(Debug, Clone, Copy, PartialEq, Eq, Structural)]
pub enum LoginOutcome {
    Complete,
    PasswordExpired,
    Rejected,
}

pub open spec fn login_complete_text() -> Seq<char> {
    "로그인 완료"@
}

pub open spec fn password_expired_text() -> Seq<char> {
    "비밀번호를 마지막으로 변경한지 180일이 지났습니다."@
}

pub open spec fn login_outcome_of(msg: Seq<char>) -> LoginOutcome {
    if msg == login_complete_text() {
        LoginOutcome::Complete
    } else if msg == password_expired_text() {
        LoginOutcome::PasswordExpired
    } else {
        LoginOutcome::Rejected
    }
}

/// Reads the message of a login answer: only the two exact messages are not a refusal.
pub fn classify_login(error_msg: &str) -> (r: LoginOutcome)
    ensures
        r == login_outcome_of(error_msg@),
{
    if str_eq(error_msg, "로그인 완료") {
        LoginOutcome::Complete
    } else if str_eq(error_msg, "비밀번호를 마지막으로 변경한지 180일이 지났습니다.") {
        LoginOutcome::PasswordExpired
    } else {
        LoginOutcome::Rejected
    }
}

/// What the client does after a login answer.
#[derive(Debug, Clone, PartialEq, Eq)]
pub enum LoginStep {
    /// Load the main page and hand it to [`Session::on_main_page`].
    FetchMarker,
    /// Post this form to the main page; the session is established.
    AcknowledgeExpiry(Vec<(String, String)>),
}

/// The state a session carries: the anti-forgery token, the marker scraped
/// after login, and whether login succeeded.
#[derive(Debug, Clone, PartialEq, Eq)]
pub struct Session {
    pub csrf_token: String,
    pub scui: String,
    pub authenticated: bool,
}

pub open spec fn login_form_of(username: Seq<char>, password: Seq<char>, token: Seq<char>) -> Seq<(Seq<char>, Seq<char>)> {
    seq![
        ("mberId"@, username),
        ("pwd"@, password),
        ("agent"@, "PC"@),
        ("_csrf"@, token),
        ("csrf"@, token),
    ]
}

pub open spec fn expiry_form_of(scui: Seq<char>) -> Seq<(Seq<char>, Seq<char>)> {
    seq![("hash"@, "true"@), ("scui"@, scui)]
}

impl Session {
    /// A session that holds the token scraped from the login page and is not yet logged in.
    pub fn new(csrf_token: &str) -> (r: Session)
        ensures
            r.csrf_token@ == csrf_token@,
            r.scui@ == Seq::<char>::empty(),
            !r.authenticated,
    {
        Session { csrf_token: csrf_token.to_owned(), scui: String::new(), authenticated: false }
    }

    /// The credentials form, with the token in both of its fields.
    pub fn login_form(&self, username: &str, password: &str) -> (r: Vec<(String, String)>)
        ensures
            form_view(r@) == login_form_of(username@, password@, self.csrf_token@),
    {
        let t = self.csrf_token.as_str();
        let v = vec![
            field("mberId", username),
            field("pwd", password),
            field("agent", "PC"),
            field("_csrf", t),
            field("csrf", t),
        ];
        assert(form_view(v@) == login_form_of(username@, password@, self.csrf_token@));
        v
    }

    /// Takes the message of the login answer. A completed login asks for the
    /// main page; an expired password is acknowledged and counts as logged in;
    /// any other message is a refusal that carries it.
    pub fn on_login_response(&mut self, error_msg: &str) -> (r: Result<LoginStep, ClientError>)
        ensures
            final(self).csrf_token == old(self).csrf_token,
            final(self).scui == old(self).scui,
            match login_outcome_of(error_msg@) {
                LoginOutcome::Complete => r == Ok::<LoginStep, ClientError>(LoginStep::FetchMarker)
                    && final(self).authenticated == old(self).authenticated,
                LoginOutcome::PasswordExpired => (r matches Ok(LoginStep::AcknowledgeExpiry(f))
                    && form_view(f@) == expiry_form_of(old(self).scui@)) && final(self).authenticated,
                LoginOutcome::Rejected => (r matches Err(ClientError::Authentication(m)) && m@
                    == error_msg@) && final(self).authenticated == old(self).authenticated,
            },
    {
        match classify_login(error_msg) {
            LoginOutcome::Complete => Ok(LoginStep::FetchMarker),
            LoginOutcome::PasswordExpired => {
                let v = vec![field("hash", "true"), field("scui", self.scui.as_str())];
                assert(form_view(v@) == expiry_form_of(self.scui@));
                self.authenticated = true;
                Ok(LoginStep::AcknowledgeExpiry(v))
            },
            LoginOutcome::Rejected => Err(ClientError::Authentication(error_msg.to_owned())),
        }
    }

    /// Takes the main page after a completed login: the marker it names, if
    /// any, becomes the session's, and the session is logged in.
    pub fn on_main_page(&mut self, page: &str)
        ensures
            final(self).csrf_token == old(self).csrf_token,
            final(self).authenticated,
            marker_value(page@).len() > 0 ==> final(self).scui@ == marker_value(page@),
            marker_value(page@).len() == 0 ==> final(self).scui == old(self).scui,
    {
        let m = extract_session_marker(page);
        if m.as_str().unicode_len() > 0 {
            self.scui = m;
        }
        self.authenticated = true;
    }

    /// A resolver for one record, which only a logged-in session hands out.
    pub fn detail_resolver(
        &self,
        registration_proc_number: &str,
        status_code: &str,
        same_institution_flag: &str,
        dept_sn: &str,
    ) -> (r: Result<DetailResolver, ClientError>)
        ensures
            !self.authenticated ==> r == Err::<DetailResolver, ClientError>(ClientError::NotAuthenticated),
            self.authenticated ==> (r matches Ok(d) && d.registration_proc_number@
                == registration_proc_number@ && d.status_code@ == status_code@ && d.scui@
                == self.scui@ && d.host == route_of(status_code@, same_institution_flag@, dept_sn@).0
                && d.dept_sn@ == route_of(status_code@, same_institution_flag@, dept_sn@).1
                && d.attempt == Attempt::First),
    {
        if !self.authenticated {
            return Err(ClientError::NotAuthenticated);
        }
        Ok(DetailResolver::new(
            registration_proc_number,
            status_code,
            same_institution_flag,
            dept_sn,
            self.scui.as_str(),
        ))
    }
}

/// The decimal digit `d`.
pub open spec fn digit_char(d: int) -> char {
    seq!['0', '1', '2', '3', '4', '5', '6', '7', '8', '9'][d]
}

pub open spec fn digits_of(n: nat) -> Seq<char>
    decreases n,
{
    if n < 10 {
        seq![digit_char(n as int)]
    } else {
        digits_of(n / 10).push(digit_char((n % 10) as int))
    }
}

/// An integer written in decimal, with a leading `-` when negative.
pub open spec fn decimal_text(n: int) -> Seq<char> {
    if n < 0 {
        seq!['-'] + digits_of((-n) as nat)
    } else {
        digits_of(n as nat)
    }
}

/// Relies on `ToString` through `i32`'s `Display`: the decimal digits, with a
/// leading `-` when negative.
#[verifier::external_body]
fn decimal(n: i32) -> (r: String)
    ensures
        r@ == decimal_text(n as int),
{
    n.to_string()
}

/// The eleven fields a listing request posts.
pub open spec fn listing_form_of(page: int, from_date: Seq<char>, to_date: Seq<char>, page_count: int, scui: Seq<char>) -> Seq<(Seq<char>, Seq<char>)> {
    seq![
        ("stRceptDt"@, from_date),
        ("edRceptDt"@, to_date),
        ("viewPage"@, decimal_text(page)),
        ("totalPage"@, "0"@),
        ("selRowPage"@, decimal_text(page_count)),
        ("rowPage"@, decimal_text(page_count)),
        ("sort"@, "rqestDtList"@),
        ("searchYn"@, "Y"@),
        ("moveStatus"@, "L"@),
        ("chkDate"@, "nonClass"@),
        ("scui"@, scui),
    ]
}

impl Session {
    /// The form of one listing page: receipt dates from `from_date` to
    /// `to_date` inclusive, `page_count` records a page.
    pub fn listing_form(&self, page: i32, from_date: &str, to_date: &str, page_count: i32) -> (r: Vec<(String, String)>)
        ensures
            form_view(r@) == listing_form_of(page as int, from_date@, to_date@, page_count as int, self.scui@),
    {
        let p = decimal(page);
        let c = decimal(page_count);
        let v = vec![
            field("stRceptDt", from_date),
            field("edRceptDt", to_date),
            field("viewPage", p.as_str()),
            field("totalPage", "0"),
            field("selRowPage", c.as_str()),
            field("rowPage", c.as_str()),
            field("sort", "rqestDtList"),
            field("searchYn", "Y"),
            field("moveStatus", "L"),
            field("chkDate", "nonClass"),
            field("scui", self.scui.as_str()),
        ];
        assert(form_view(v@) == listing_form_of(page as int, from_date@, to_date@, page_count as int, self.scui@));
        v
    }
}

/// The two fields a download posts.
pub fn download_form(file: &DntcFile) -> (r: Vec<(String, String)>)
    ensures
        form_view(r@) == seq![("fileUploadNo"@, file.fileUploadNo@), ("fileSn"@, file.fileSn@)],
{
    let v = vec![field("fileUploadNo", file.fileUploadNo.as_str()), field("fileSn", file.fileSn.as_str())];
    assert(form_view(v@) == seq![("fileUploadNo"@, file.fileUploadNo@), ("fileSn"@, file.fileSn@)]);
    v
}

} // verus!
