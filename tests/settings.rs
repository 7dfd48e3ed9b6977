use ogk::client::DtlVo;
use ogk::config::{AuthConfig, AuthUser, Config};
use ogk::log::PrintType;
use ogk::models::{rows_of, table_url, upload_accepted, BillRow};

fn sample_bill() -> DtlVo {
    DtlVo {
        deptSn: String::from("test"),
        clsdrResnCn: String::from("test"),
        clsdrResnNm: String::from("test"),
        chckerClsfNm: String::from("test"),
        chckerFnm: String::from("test"),
        dcrberFnm: String::from("test"),
        dcrberClsfNm: String::from("test"),
        dcanerFnm: String::from("test"),
        dcanerClsfNm: String::from("test"),
        drafterFnm: String::from("test"),
        drafterClsfNm: String::from("test"),
        sanctnDocNo: String::from("test"),
        decsnCn: String::from("test"),
        trnsfInsttNmCn: String::from("test"),
        opetrId: String::from("test"),
        opetrFnm: String::from("test"),
        opetrDeptCd: String::from("test"),
        opetrDeptNm: String::from("test"),
        opetrClsfCd: String::from("test"),
        opetrClsfNm: String::from("test"),
        opetrCbleTelno: String::from("test"),
        othinstSmtmProcessYn: String::from("test"),
        othbcDtApnResnNm: String::from("test"),
        othbcOprtnDt: String::from("test"),
        othbcSeNm: String::from("test"),
        othbcStleSeNm: String::from("test"),
        othbcPrearngeDt: String::from("test"),
        recptMthSeNm: String::from("test"),
        recptnServerId: String::from("test"),
        nticeDt: String::from("test"),
        insttAddr: String::from("test"),
        insttRqestProcStCd: String::from("test"),
        insttRqestProcStNm: String::from("test"),
        mberId: String::from("test"),
        prcsInsttCd: String::from("test"),
        prcsInsttNm: String::from("test"),
        prcsFullInsttNm: String::from("test"),
        procCn: String::from("test"),
        procDt: String::from("test"),
        procRegstrNo: String::from("test"),
        procDeptCbleTelno: String::from("test"),
        procUserEmailAdres: String::from("test"),
        rceptDt: String::from("test"),
        rqestCn: String::from("test"),
        rqestDt: String::from("test"),
        rqestFullInsttNm: String::from("test"),
        rqestInsttCd: String::from("test"),
        rqestInsttNm: String::from("test"),
        rqestProcRegstrNo: String::from("test"),
        rqestRceptNo: String::from("test"),
        rqestSj: String::from("test"),
    }
}

#[test]
fn config_paths() {
    assert_eq!(Config::root_path("/home/me"), "/home/me/.ogk");
    assert_eq!(Config::file_path("/home/me"), "/home/me/.ogk/config");
    assert_eq!(Config::default_local_repository("/home/me"), "/home/me/.ogk/.data");
    assert_eq!(AuthConfig::credential_file_path("/home/me"), "/home/me/.ogk/credentials");
}

#[test]
fn new_config_has_only_the_local_repository() {
    let c = Config::new("/h");
    assert_eq!(c.local_file_repository, Some(String::from("/h/.ogk/.data")));
    assert_eq!(c.remote_file_repository, None);
    assert_eq!(c.supabase_host, None);
    assert_eq!(c.supabase_api_key, None);
    assert_eq!(c.slack_webhook_url, None);
}

#[test]
fn config_description() {
    let mut c = Config::new("/h");
    c.local_file_repository = None;
    c.supabase_host = Some(String::from("https://db"));
    assert_eq!(
        c.describe("/h"),
        "🗄  FILES:\nlocal file repository: /h/.ogk/.data\nremote file repository(github): ⚠️  NOT CONFIGURED ⚠️\n\n💾 DATABASE(supabase)\nhost: https://db\napi_key: ⚠️  NOT CONFIGURED ⚠️\n\n🔌 INTEGRATION\nSLACK WEBHOOK URL: ⚠️  NOT CONFIGURED ⚠️"
    );
}

#[test]
fn password_is_stored_encoded() {
    let u = AuthUser::new("org", "me", "secret");
    assert_eq!(u.password, "c2VjcmV0");
    assert_eq!(u.get_decoded_password(), Some(String::from("secret")));
    let k = AuthUser::new("org", "me", "비밀번호1");
    assert_eq!(k.password, "67mE67CA67KI7Zi4MQ==");
    assert_eq!(k.get_decoded_password(), Some(String::from("비밀번호1")));
}

#[test]
fn undecodable_password_is_none() {
    let mut u = AuthUser::new("org", "me", "x");
    u.password = String::from("not base64!");
    assert_eq!(u.get_decoded_password(), None);
}

#[test]
fn first_account_is_also_default() {
    let c = AuthConfig::new().add_account("a", "ua", "pa");
    assert_eq!(c.find_org("a").unwrap().username, "ua");
    assert_eq!(c.find_org("default").unwrap().org, "a");
    let c = c.add_account("b", "ub", "pb");
    assert_eq!(c.find_org("b").unwrap().username, "ub");
    assert_eq!(c.find_org("default").unwrap().org, "a");
    assert!(c.find_org("c").is_none());
}

#[test]
fn adding_an_org_again_replaces_it() {
    let c = AuthConfig::new().add_account("a", "u1", "p").add_account("a", "u2", "p");
    assert_eq!(c.find_org("a").unwrap().username, "u2");
    assert_eq!(c.find_org("default").unwrap().username, "u1");
}

#[test]
fn settings_reach_the_default_account_of_the_same_org() {
    let c = AuthConfig::new().add_account("a", "ua", "pa").add_account("b", "ub", "pb");
    let c = c.set_remote_repository_path("a", "org/repo");
    assert_eq!(c.find_org("a").unwrap().remote_repository, Some(String::from("org/repo")));
    assert_eq!(c.find_org("default").unwrap().remote_repository, Some(String::from("org/repo")));
    assert_eq!(c.find_org("b").unwrap().remote_repository, None);
    let c = c.set_local_repository_path("b", "/tmp/b");
    assert_eq!(c.find_org("b").unwrap().local_repository, Some(String::from("/tmp/b")));
    assert_eq!(c.find_org("default").unwrap().local_repository, None);
    let c = c.set_slack_webhook_url("a", "https://hook");
    assert_eq!(c.find_org("default").unwrap().slack_webhook_url, Some(String::from("https://hook")));
    let c = c.set_slack_webhook_url("zzz", "https://x");
    assert!(c.find_org("zzz").is_none());
}

#[test]
fn row_of_a_record() {
    let mut b = sample_bill();
    b.decsnCn = String::new();
    b.clsdrResnCn = String::from("비공개 사유");
    b.othbcOprtnDt = String::new();
    b.othbcPrearngeDt = String::from("2020.09.15");
    b.rqestDt = String::from("2020.09.01");
    let r = BillRow::new(&b);
    assert_eq!(r.group_id, Some(String::from("4d233e1542ec3318b99af696019def62ae670f68")));
    assert_eq!(r.result_description, Some(String::from("비공개 사유")));
    assert_eq!(r.open_date, Some(String::from("2020-09-15")));
    assert_eq!(r.request_date, "2020-09-01");
    assert_eq!(r.notice_date, Some(String::from("test")));
    assert_eq!(r.user_id, "test");
}

#[test]
fn row_prefers_the_decision_and_the_disclosure_date() {
    let mut b = sample_bill();
    b.othbcOprtnDt = String::from("2021.01.02");
    let r = BillRow::new(&b);
    assert_eq!(r.result_description, Some(String::from("test")));
    assert_eq!(r.open_date, Some(String::from("2021-01-02")));
    b.decsnCn = String::new();
    b.clsdrResnCn = String::new();
    b.othbcOprtnDt = String::new();
    b.othbcPrearngeDt = String::new();
    let r = BillRow::new(&b);
    assert_eq!(r.result_description, None);
    assert_eq!(r.open_date, Some(String::new()));
}

#[test]
fn group_id_digest() {
    assert_eq!(BillRow::create_group_id("회의록", "요청"), "2ded027c50dfe245b9930b56b3f89ac7d9d5a719");
}

#[test]
fn rows_keep_order() {
    let mut a = sample_bill();
    a.rqestRceptNo = String::from("1");
    let mut b = sample_bill();
    b.rqestRceptNo = String::from("2");
    let rows = rows_of(&vec![a, b]);
    assert_eq!(rows.len(), 2);
    assert_eq!(rows[0].registration_number, "1");
    assert_eq!(rows[1].registration_number, "2");
}

#[test]
fn mirror_helpers() {
    assert!(upload_accepted(200));
    assert!(upload_accepted(201));
    assert!(!upload_accepted(204));
    assert_eq!(table_url("https://db", "bills", Some("a=b")), "https://db/rest/v1/bills?a=b");
    assert_eq!(table_url("https://db", "bills", None), "https://db/rest/v1/bills");
    assert!(PrintType::SLACK.notifies());
    assert!(!PrintType::DEFAULT.notifies());
}
