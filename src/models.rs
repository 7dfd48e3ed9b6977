//! The flat row a disclosure record becomes in the relational mirror.

use vstd::prelude::*;
use crypto::digest::Digest;
use crate::client::DtlVo;
use crate::text::{concat, replace_char, replace_char_in};

verus! {

/// The lowercase hexadecimal SHA-1 digest of a text's UTF-8 bytes.
pub uninterp spec fn sha1_hex(s: Seq<char>) -> Seq<char>;

/// Relies on rust-crypto's `Sha1` (`input_str`, then `result_str`): the
/// lowercase hexadecimal SHA-1 digest of the text's UTF-8 bytes.
#[verifier::external_body]
fn sha1_hex_of(text: &str) -> (r: String)
    ensures
        r@ == sha1_hex(text@),
{
    let mut hasher = crypto::sha1::Sha1::new();
    hasher.input_str(text);
    hasher.result_str()
}

/// A row of the mirror's table.
#[derive(Debug, Clone, PartialEq, Eq)]
pub struct BillRow {
    pub registration_number: String,
    pub registration_proc_number: String,
    pub group_id: Option<String>,
    pub proc_org_dept_code: Option<String>,
    pub proc_org_dept_phone: Option<String>,
    pub proc_org_dept_name: Option<String>,
    pub proc_org_name: Option<String>,
    pub proc_person_class: Option<String>,
    pub proc_person_name: Option<String>,
    pub dept_sn: Option<String>,
    pub open_type: Option<String>,
    pub open_status: Option<String>,
    pub open_status_code: Option<String>,
    pub open_date: Option<String>,
    pub open_date_reason: Option<String>,
    pub open_file_method: Option<String>,
    pub notice_date: Option<String>,
    pub request_date: String,
    pub request_subject: String,
    pub request_description: String,
    pub result_description: Option<String>,
    pub transfered_org_name: Option<String>,
    pub sanction_checker_name: Option<String>,
    pub sanction_checker_class: Option<String>,
    pub sanction_drafter_name: Option<String>,
    pub sanction_drafter_class: Option<String>,
    pub sanction_dcaner_name: Option<String>,
    pub sanction_dcaner_class: Option<String>,
    pub sanction_dcrber_name: Option<String>,
    pub sanction_dcrber_class: Option<String>,
    pub user_id: String,
}

pub open spec fn holds(o: Option<String>, v: Seq<char>) -> bool {
    o matches Some(x) && x@ == v
}

/// The group a request belongs to: the digest of `{subject}_{description}`.
pub open spec fn group_id_of(subject: Seq<char>, description: Seq<char>) -> Seq<char> {
    sha1_hex(subject + "_"@ + description)
}

/// The decision text, else the reason for non-disclosure, else nothing.
pub open spec fn result_description_of(b: DtlVo) -> Option<Seq<char>> {
    if b.decsnCn@.len() > 0 {
        Some(b.decsnCn@)
    } else if b.clsdrResnCn@.len() > 0 {
        Some(b.clsdrResnCn@)
    } else {
        None
    }
}

/// The date of disclosure, else the planned date, else empty; dots made dashes.
pub open spec fn open_date_of(b: DtlVo) -> Seq<char> {
    replace_char(
        if b.othbcOprtnDt@.len() > 0 {
            b.othbcOprtnDt@
        } else {
            b.othbcPrearngeDt@
        },
        '.',
        '-',
    )
}

/// `r` is the row of record `b`.
pub open spec fn is_row_of(r: BillRow, b: DtlVo) -> bool {
    &&& holds(r.group_id, group_id_of(b.rqestSj@, b.rqestCn@))
    &&& match result_description_of(b) {
        Some(d) => holds(r.result_description, d),
        None => r.result_description is None,
    }
    &&& holds(r.open_date, open_date_of(b))
    &&& r.registration_number@ == b.rqestRceptNo@
    &&& r.registration_proc_number@ == b.rqestProcRegstrNo@
    &&& r.request_date@ == replace_char(b.rqestDt@, '.', '-')
    &&& r.request_description@ == b.rqestCn@
    &&& r.request_subject@ == b.rqestSj@
    &&& r.user_id@ == b.mberId@
    &&& holds(r.notice_date, b.nticeDt@)
    &&& holds(r.dept_sn, b.deptSn@)
    &&& holds(r.open_date_reason, b.othbcDtApnResnNm@)
    &&& holds(r.open_status, b.insttRqestProcStNm@)
    &&& holds(r.open_status_code, b.insttRqestProcStCd@)
    &&& holds(r.open_type, b.othbcSeNm@)
    &&& holds(r.proc_org_dept_code, b.opetrDeptCd@)
    &&& holds(r.proc_org_dept_name, b.opetrDeptNm@)
    &&& holds(r.proc_org_dept_phone, b.opetrCbleTelno@)
    &&& holds(r.proc_org_name, b.prcsInsttNm@)
    &&& holds(r.proc_person_class, b.opetrClsfNm@)
    &&& holds(r.proc_person_name, b.opetrFnm@)
    &&& holds(r.open_file_method, b.othbcStleSeNm@)
    &&& holds(r.sanction_checker_class, b.chckerClsfNm@)
    &&& holds(r.sanction_checker_name, b.chckerFnm@)
    &&& holds(r.sanction_drafter_name, b.drafterFnm@)
    &&& holds(r.sanction_drafter_class, b.drafterClsfNm@)
    &&& holds(r.sanction_dcaner_name, b.dcanerFnm@)
    &&& holds(r.sanction_dcaner_class, b.dcanerClsfNm@)
    &&& holds(r.sanction_dcrber_name, b.dcrberFnm@)
    &&& holds(r.sanction_dcrber_class, b.dcrberClsfNm@)
    &&& holds(r.transfered_org_name, b.trnsfInsttNmCn@)
}

impl BillRow {
    /// The row of a record.
    pub fn new(bill: &DtlVo) -> (r: BillRow)
        ensures
            is_row_of(r, *bill),
    {
        let group_id = BillRow::create_group_id(bill.rqestSj.as_str(), bill.rqestCn.as_str());
        let result_description: Option<String> = if bill.decsnCn.as_str().unicode_len() > 0 {
            Some(bill.decsnCn.clone())
        } else if bill.clsdrResnCn.as_str().unicode_len() > 0 {
            Some(bill.clsdrResnCn.clone())
        } else {
            None
        };
        let open_date = if bill.othbcOprtnDt.as_str().unicode_len() > 0 {
            bill.othbcOprtnDt.as_str()
        } else {
            bill.othbcPrearngeDt.as_str()
        };
        BillRow {
            group_id: Some(group_id),
            open_date: Some(replace_char_in(open_date, '.', '-')),
            registration_number: bill.rqestRceptNo.clone(),
            registration_proc_number: bill.rqestProcRegstrNo.clone(),
            request_date: replace_char_in(bill.rqestDt.as_str(), '.', '-'),
            request_description: bill.rqestCn.clone(),
            request_subject: bill.rqestSj.clone(),
            result_description,
            notice_date: Some(bill.nticeDt.clone()),
            dept_sn: Some(bill.deptSn.clone()),
            open_date_reason: Some(bill.othbcDtApnResnNm.clone()),
            open_status: Some(bill.insttRqestProcStNm.clone()),
            open_status_code: Some(bill.insttRqestProcStCd.clone()),
            open_type: Some(bill.othbcSeNm.clone()),
            proc_org_dept_code: Some(bill.opetrDeptCd.clone()),
            proc_org_dept_name: Some(bill.opetrDeptNm.clone()),
            proc_org_dept_phone: Some(bill.opetrCbleTelno.clone()),
            proc_org_name: Some(bill.prcsInsttNm.clone()),
            proc_person_class: Some(bill.opetrClsfNm.clone()),
            proc_person_name: Some(bill.opetrFnm.clone()),
            open_file_method: Some(bill.othbcStleSeNm.clone()),
            sanction_checker_class: Some(bill.chckerClsfNm.clone()),
            sanction_checker_name: Some(bill.chckerFnm.clone()),
            sanction_drafter_name: Some(bill.drafterFnm.clone()),
            sanction_drafter_class: Some(bill.drafterClsfNm.clone()),
            sanction_dcaner_name: Some(bill.dcanerFnm.clone()),
            sanction_dcaner_class: Some(bill.dcanerClsfNm.clone()),
            sanction_dcrber_name: Some(bill.dcrberFnm.clone()),
            sanction_dcrber_class: Some(bill.dcrberClsfNm.clone()),
            transfered_org_name: Some(bill.trnsfInsttNmCn.clone()),
            user_id: bill.mberId.clone(),
        }
    }

    /// The digest of `{rqest_sj}_{rqest_cn}`, which groups identical requests.
    pub fn create_group_id(rqest_sj: &str, rqest_cn: &str) -> (r: String)
        ensures
            r@ == group_id_of(rqest_sj@, rqest_cn@),
    {
        let a = concat(rqest_sj, "_");
        let b = concat(a.as_str(), rqest_cn);
        sha1_hex_of(b.as_str())
    }
}

/// The rows of a list of records, in order.
pub fn rows_of(bills: &Vec<DtlVo>) -> (r: Vec<BillRow>)
    ensures
        r@.len() == bills@.len(),
        forall|i: int| 0 <= i < bills@.len() ==> is_row_of(#[trigger] r@[i], bills@[i]),
{
    let mut out: Vec<BillRow> = Vec::new();
    let mut i: usize = 0;
    while i < bills.len()
        invariant
            i <= bills@.len(),
            out@.len() == i,
            forall|j: int| 0 <= j < i ==> is_row_of(#[trigger] out@[j], bills@[j]),
        decreases bills@.len() - i,
    {
        out.push(BillRow::new(&bills[i]));
        i = i + 1;
    }
    out
}

/// Whether the mirror accepted an upload: it answers 200 or 201.
pub fn upload_accepted(status: u16) -> (r: bool)
    ensures
        r == (status == 200 || status == 201),
{
    status == 200 || status == 201
}

/// The address of a table of the mirror, with an optional query.
pub fn table_url(host: &str, table_name: &str, query: Option<&str>) -> (r: String)
    ensures
        r@ == host@ + "/rest/v1/"@ + table_name@ + match query {
            Some(q) => "?"@ + q@,
            None => Seq::<char>::empty(),
        },
{
    let a = concat(host, "/rest/v1/");
    let b = concat(a.as_str(), table_name);
    match query {
        Some(q) => {
            let c = concat(b.as_str(), "?");
            let r = concat(c.as_str(), q);
            assert(r@ == b@ + ("?"@ + q@));
            r
        },
        None => {
            assert(b@ + Seq::<char>::empty() == b@);
            b
        },
    }
}

} // verus!
