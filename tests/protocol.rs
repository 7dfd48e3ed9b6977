use ogk::batch::{chunk_bounds, CHUNK_SIZE};
use ogk::client::{
    classify_login, download_form, resolve_step, select_route, Attempt, BillReturnType, BillWithFiles,
    ClientError, DetailHost, DetailResolver, DntcFile, DtlVo, LoginOutcome, LoginStep, ParsedPayload,
    RedirectedBillWithFiles, ResolveStep, Session, DETAIL_HOST_FOR_NOT_OPENED, DETAIL_HOST_FOR_OPENED,
};

fn sample_bill() -> DtlVo {
    DtlVo {
        deptSn: String::from("test"),
        clsdrResnCn: String::from("test"),
        clsdrResnNm: String::from("test"),
        chckerClsfNm: String::from("test"),
        chckerFnm: String::from("test"),
        dcrberFnm: String::from("test"),
        dcrberClsfNm: String::from("test"),
        dcanerFnm: String::from("test"),
        dcanerClsfNm: String::from("test"),
        drafterFnm: String::from("test"),
        drafterClsfNm: String::from("test"),
        sanctnDocNo: String::from("test"),
        decsnCn: String::from("test"),
        trnsfInsttNmCn: String::from("test"),
        opetrId: String::from("test"),
        opetrFnm: String::from("test"),
        opetrDeptCd: String::from("test"),
        opetrDeptNm: String::from("test"),
        opetrClsfCd: String::from("test"),
        opetrClsfNm: String::from("test"),
        opetrCbleTelno: String::from("test"),
        othinstSmtmProcessYn: String::from("test"),
        othbcDtApnResnNm: String::from("test"),
        othbcOprtnDt: String::from("test"),
        othbcSeNm: String::from("test"),
        othbcStleSeNm: String::from("test"),
        othbcPrearngeDt: String::from("test"),
        recptMthSeNm: String::from("test"),
        recptnServerId: String::from("test"),
        nticeDt: String::from("test"),
        insttAddr: String::from("test"),
        insttRqestProcStCd: String::from("test"),
        insttRqestProcStNm: String::from("test"),
        mberId: String::from("test"),
        prcsInsttCd: String::from("test"),
        prcsInsttNm: String::from("test"),
        prcsFullInsttNm: String::from("test"),
        procCn: String::from("test"),
        procDt: String::from("test"),
        procRegstrNo: String::from("test"),
        procDeptCbleTelno: String::from("test"),
        procUserEmailAdres: String::from("test"),
        rceptDt: String::from("test"),
        rqestCn: String::from("test"),
        rqestDt: String::from("test"),
        rqestFullInsttNm: String::from("test"),
        rqestInsttCd: String::from("test"),
        rqestInsttNm: String::from("test"),
        rqestProcRegstrNo: String::from("test"),
        rqestRceptNo: String::from("test"),
        rqestSj: String::from("test"),
    }
}

fn detail() -> BillWithFiles {
    BillWithFiles { atchFileList: None, dntcFileList: None, dtlVo: sample_bill() }
}

fn fields(v: &[(String, String)]) -> Vec<(&str, &str)> {
    v.iter().map(|(a, b)| (a.as_str(), b.as_str())).collect()
}

#[test]
fn opened_codes_route_to_the_opened_host() {
    for code in ["141", "143", "1411", "1413", "1415", "1421", "163", "165", "1861"].iter() {
        let r = select_route(code, "Y", "3");
        assert_eq!(r.host, DetailHost::Opened);
        assert_eq!(r.dept_sn, "3");
    }
}

#[test]
fn conditional_codes_follow_the_flag() {
    for code in ["171", "172"].iter() {
        let r = select_route(code, "N", "3");
        assert_eq!(r.host, DetailHost::Opened);
        assert_eq!(r.dept_sn, "");
        let r = select_route(code, "Y", "3");
        assert_eq!(r.host, DetailHost::NotOpened);
        let r = select_route(code, "", "3");
        assert_eq!(r.host, DetailHost::NotOpened);
    }
}

#[test]
fn other_codes_route_to_the_not_opened_host() {
    for code in ["121", "131", "1412", "17", "", "N"].iter() {
        let r = select_route(code, "N", "2");
        assert_eq!(r.host, DetailHost::NotOpened);
        assert_eq!(r.dept_sn, "2");
    }
}

#[test]
fn host_urls() {
    assert_eq!(DetailHost::Opened.url(), DETAIL_HOST_FOR_OPENED);
    assert_eq!(DetailHost::NotOpened.url(), DETAIL_HOST_FOR_NOT_OPENED);
    assert_eq!(DetailHost::Opened.other(), DetailHost::NotOpened);
}

#[test]
fn redirect_on_first_fetch_is_redirected() {
    let r = RedirectedBillWithFiles { redirectUrl: String::from("/login") };
    let step = resolve_step(Attempt::First, DetailHost::NotOpened, ParsedPayload::Redirect(r.clone()));
    assert_eq!(step, ResolveStep::Done(BillReturnType::Redirected(r)));
}

#[test]
fn unreadable_first_answer_tries_the_other_host_once() {
    let mut res = DetailResolver::new("R1", "121", "Y", "1", "scui");
    assert_eq!(res.host, DetailHost::NotOpened);
    let step = res.on_payload(ParsedPayload::Unparsable);
    assert_eq!(step, ResolveStep::Fetch(DetailHost::Opened));
    assert_eq!(res.host, DetailHost::Opened);
    assert_eq!(res.attempt, Attempt::Second);
    let step = res.on_payload(ParsedPayload::Unparsable);
    assert_eq!(step, ResolveStep::Done(BillReturnType::NoDetail));
}

#[test]
fn detail_on_the_second_host_is_final() {
    let mut res = DetailResolver::new("R1", "121", "Y", "1", "scui");
    res.on_payload(ParsedPayload::Unparsable);
    let step = res.on_payload(ParsedPayload::Detail(detail()));
    assert_eq!(step, ResolveStep::Done(BillReturnType::BillWithFiles(detail())));
}

#[test]
fn redirect_on_second_fetch_is_no_detail() {
    let r = RedirectedBillWithFiles { redirectUrl: String::from("/x") };
    let step = resolve_step(Attempt::Second, DetailHost::Opened, ParsedPayload::Redirect(r));
    assert_eq!(step, ResolveStep::Done(BillReturnType::NoDetail));
}

#[test]
fn empty_answer_is_no_detail() {
    let step = resolve_step(Attempt::First, DetailHost::Opened, ParsedPayload::Empty);
    assert_eq!(step, ResolveStep::Done(BillReturnType::NoDetail));
}

#[test]
fn status_143_resolves_on_the_opened_host_first() {
    let mut res = DetailResolver::new("R143", "143", "Y", "1", "m");
    assert_eq!(res.host, DetailHost::Opened);
    assert_eq!(res.attempt, Attempt::First);
    let step = res.on_payload(ParsedPayload::Detail(detail()));
    assert_eq!(step, ResolveStep::Done(BillReturnType::BillWithFiles(detail())));
    assert_eq!(res.attempt, Attempt::First);
}

#[test]
fn detail_form_fields() {
    let res = DetailResolver::new("R9", "172", "N", "4", "mark");
    assert_eq!(
        fields(&res.request_form()),
        vec![
            ("rqestRceptNo", ""),
            ("rqestProcRegstrNo", "R9"),
            ("procRegstrNo", "R9"),
            ("insttRqestProcStCd", "172"),
            ("deptSn", ""),
            ("hash", "true"),
            ("multiDeptProcYn", "N"),
            ("scui", "mark"),
        ]
    );
}

#[test]
fn login_messages() {
    assert_eq!(classify_login("로그인 완료"), LoginOutcome::Complete);
    assert_eq!(
        classify_login("비밀번호를 마지막으로 변경한지 180일이 지났습니다."),
        LoginOutcome::PasswordExpired
    );
    assert_eq!(classify_login("로그인 실패"), LoginOutcome::Rejected);
    assert_eq!(classify_login("로그인 완료 "), LoginOutcome::Rejected);
}

#[test]
fn login_flow_with_marker() {
    let mut s = Session::new("tok");
    assert_eq!(
        fields(&s.login_form("me", "pw")),
        vec![("mberId", "me"), ("pwd", "pw"), ("agent", "PC"), ("_csrf", "tok"), ("csrf", "tok")]
    );
    assert_eq!(s.detail_resolver("R", "143", "Y", "1"), Err(ClientError::NotAuthenticated));
    assert_eq!(s.on_login_response("로그인 완료"), Ok(LoginStep::FetchMarker));
    s.on_main_page("<script>const scui = 'abc';</script>");
    assert!(s.authenticated);
    assert_eq!(s.scui, "abc");
    let r = s.detail_resolver("R", "143", "Y", "1").unwrap();
    assert_eq!(r.scui, "abc");
    assert_eq!(r.host, DetailHost::Opened);
}

#[test]
fn login_with_expired_password() {
    let mut s = Session::new("tok");
    let step = s.on_login_response("비밀번호를 마지막으로 변경한지 180일이 지났습니다.").unwrap();
    match step {
        LoginStep::AcknowledgeExpiry(f) => assert_eq!(fields(&f), vec![("hash", "true"), ("scui", "")]),
        other => panic!("{:?}", other),
    }
    assert!(s.authenticated);
}

#[test]
fn login_refused_carries_the_message() {
    let mut s = Session::new("tok");
    assert_eq!(
        s.on_login_response("아이디 오류"),
        Err(ClientError::Authentication(String::from("아이디 오류")))
    );
    assert!(!s.authenticated);
}

#[test]
fn main_page_without_marker_keeps_the_old_one() {
    let mut s = Session::new("tok");
    s.on_main_page("<html></html>");
    assert_eq!(s.scui, "");
    assert!(s.authenticated);
}

#[test]
fn listing_form_fields() {
    let mut s = Session::new("t");
    s.on_main_page("const scui = 'sc';");
    assert_eq!(
        fields(&s.listing_form(1, "2020-09-01", "2020-09-01", 250)),
        vec![
            ("stRceptDt", "2020-09-01"),
            ("edRceptDt", "2020-09-01"),
            ("viewPage", "1"),
            ("totalPage", "0"),
            ("selRowPage", "250"),
            ("rowPage", "250"),
            ("sort", "rqestDtList"),
            ("searchYn", "Y"),
            ("moveStatus", "L"),
            ("chkDate", "nonClass"),
            ("scui", "sc"),
        ]
    );
    let f = s.listing_form(-7, "a", "b", 0);
    assert_eq!(f[2].1, "-7");
    assert_eq!(f[4].1, "0");
}

#[test]
fn download_form_fields() {
    let file = DntcFile {
        atchmnflByteCo: String::from("100081"),
        atchmnflPrsrvNm: String::from("202007171546284220000.zip"),
        csdCnvrStCd: String::from("020"),
        fileAbsltCoursNm: String::from("/pidfiles/uploads/pb/dlsrinfo/"),
        fileSn: String::from("1"),
        fileUploadNo: String::from("VVdXZnJWYWI5Mm5GTzlsN1dWdno0QT09"),
        frstRegisterId: String::from("MIG"),
        uploadFileOrginlNm: String::from("a.zip"),
    };
    assert_eq!(
        fields(&download_form(&file)),
        vec![("fileUploadNo", "VVdXZnJWYWI5Mm5GTzlsN1dWdno0QT09"), ("fileSn", "1")]
    );
}

#[test]
fn chunks_cover_every_item() {
    assert_eq!(CHUNK_SIZE, 30);
    assert_eq!(chunk_bounds(65, 30), vec![(0, 30), (30, 60), (60, 65)]);
    assert_eq!(chunk_bounds(60, 30), vec![(0, 30), (30, 60)]);
    assert_eq!(chunk_bounds(1, 30), vec![(0, 1)]);
    assert_eq!(chunk_bounds(0, 30), Vec::<(usize, usize)>::new());
}

#[test]
fn batch_over_k_records_yields_k_results() {
    let k: usize = 73;
    let mut s = Session::new("t");
    s.on_main_page("const scui = 'sc';");
    let mut results: Vec<BillReturnType> = Vec::new();
    for (start, end) in chunk_bounds(k, CHUNK_SIZE) {
        assert!(end - start <= CHUNK_SIZE);
        for i in start..end {
            let code = if i % 3 == 0 { "143" } else { "121" };
            let mut r = s.detail_resolver(&format!("R{}", i), code, "Y", "1").unwrap();
            let answer = match i % 4 {
                0 => ParsedPayload::Detail(detail()),
                1 => ParsedPayload::Redirect(RedirectedBillWithFiles { redirectUrl: String::from("/") }),
                2 => ParsedPayload::Empty,
                _ => ParsedPayload::Unparsable,
            };
            let mut step = r.on_payload(answer);
            while let ResolveStep::Fetch(_) = step {
                step = r.on_payload(ParsedPayload::Unparsable);
            }
            if let ResolveStep::Done(outcome) = step {
                results.push(outcome);
            }
        }
    }
    assert_eq!(results.len(), k);
}
