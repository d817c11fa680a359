//! The records of registered numbers, and who may act on them.
use vstd::prelude::*;

use crate::clock::Timestamp;
use crate::proxy::error::{not_found, ProxyError, ProxyErrorView};
use crate::text::{copy_opt, opt_view};

verus! {

/// How far the registration of a number has come.
#[derive(Debug, Clone, Copy, PartialEq, Eq, Structural)]
pub enum RegistrationStatus {
    /// A verification code was sent.
    Pending,
    /// The number is registered.
    Verified,
    /// The registration failed.
    Failed,
}

/// What is known of a number.
#[derive(Debug)]
pub struct PhoneNumberRecord {
    pub phone_number: String,
    pub status: RegistrationStatus,
    pub registered_at: Timestamp,
    pub model: Option<String>,
    pub system_prompt: Option<String>,
    pub username: Option<String>,
}

/// A [`PhoneNumberRecord`] with its texts as character sequences.
pub struct RecordView {
    pub phone_number: Seq<char>,
    pub status: RegistrationStatus,
    pub registered_at: Timestamp,
    pub model: Option<Seq<char>>,
    pub system_prompt: Option<Seq<char>>,
    pub username: Option<Seq<char>>,
}

impl View for PhoneNumberRecord {
    type V = RecordView;

    open spec fn view(&self) -> RecordView {
        RecordView {
            phone_number: self.phone_number@,
            status: self.status,
            registered_at: self.registered_at,
            model: opt_view(self.model),
            system_prompt: opt_view(self.system_prompt),
            username: opt_view(self.username),
        }
    }
}

impl Clone for PhoneNumberRecord {
    fn clone(&self) -> (r: Self)
        ensures
            r@ == self@,
    {
        PhoneNumberRecord {
            phone_number: self.phone_number.clone(),
            status: self.status,
            registered_at: self.registered_at,
            model: copy_opt(&self.model),
            system_prompt: copy_opt(&self.system_prompt),
            username: copy_opt(&self.username),
        }
    }
}

/// The record, if there is one, with its texts as character sequences.
pub open spec fn record_view(record: Option<&PhoneNumberRecord>) -> Option<RecordView> {
    match record {
        Some(r) => Some(r@),
        None => None,
    }
}

/// An outcome with its text as a character sequence.
pub open spec fn number_result(r: Result<String, ProxyError>) -> Result<Seq<char>, ProxyErrorView> {
    match r {
        Ok(number) => Ok(number@),
        Err(e) => Err(e@),
    }
}

/// The number that a request names, or why what it names is no number.
pub open spec fn named_number(normalized: Result<String, String>) -> Result<
    Seq<char>,
    ProxyErrorView,
> {
    match normalized {
        Ok(number) => Ok(number@),
        Err(reason) => Err(ProxyErrorView::InvalidPhoneNumber(reason@)),
    }
}

/// The number that a request names, where its sender may act on it: it has a record, with the
/// wanted status if one is wanted, and the sender has proved to own it.
pub open spec fn owned_number(
    normalized: Result<String, String>,
    record: Option<RecordView>,
    wanted: Option<RegistrationStatus>,
    owned: bool,
) -> Result<Seq<char>, ProxyErrorView> {
    match named_number(normalized) {
        Err(e) => Err(e),
        Ok(number) => if record is None || wanted is Some && record->0.status != wanted->0 {
            Err(ProxyErrorView::NotFound(number))
        } else if !owned {
            Err(ProxyErrorView::OwnershipProofMismatch)
        } else {
            Ok(number)
        },
    }
}

/// The number that a request names.
pub fn normal_number(normalized: Result<String, String>) -> (r: Result<String, ProxyError>)
    ensures
        number_result(r) == named_number(normalized),
{
    match normalized {
        Ok(number) => Ok(number),
        Err(reason) => Err(ProxyError::InvalidPhoneNumber(reason)),
    }
}

/// The number that a request names, where its sender may act on it.
pub fn check_owner(
    normalized: Result<String, String>,
    record: Option<&PhoneNumberRecord>,
    wanted: Option<RegistrationStatus>,
    owned: bool,
) -> (r: Result<String, ProxyError>)
    ensures
        number_result(r) == owned_number(normalized, record_view(record), wanted, owned),
{
    let number = match normal_number(normalized) {
        Ok(number) => number,
        Err(e) => return Err(e),
    };
    let record = match record {
        Some(record) => record,
        None => return Err(not_found(number.as_str())),
    };
    if let Some(status) = wanted {
        if record.status != status {
            return Err(not_found(number.as_str()));
        }
    }
    if !owned {
        return Err(ProxyError::OwnershipProofMismatch);
    }
    Ok(number)
}

/// Nobody acts on a number that they have not proved to own.
pub proof fn law_only_owners_act(
    normalized: Result<String, String>,
    record: Option<RecordView>,
    wanted: Option<RegistrationStatus>,
)
    ensures
        owned_number(normalized, record, wanted, false) is Err,
        owned_number(normalized, None, wanted, true) is Err,
{
}

/// A record is seen with all that it holds, and a copy of it holds the same.
pub proof fn law_records_are_seen_whole(record: &PhoneNumberRecord, copy: PhoneNumberRecord)
    requires
        call_ensures(PhoneNumberRecord::clone, (record,), copy),
    ensures
        record@.phone_number == record.phone_number@ && copy.phone_number@ == record.phone_number@,
        record@.status == record.status && copy.status == record.status,
        record@.registered_at == record.registered_at && copy.registered_at
            == record.registered_at,
        record@.model == opt_view(record.model) && opt_view(copy.model) == opt_view(record.model),
        record@.system_prompt == opt_view(record.system_prompt) && opt_view(copy.system_prompt)
            == opt_view(record.system_prompt),
        record@.username == opt_view(record.username) && opt_view(copy.username) == opt_view(
            record.username,
        ),
{
}

/// A request names the number that is normal, or is told why it names none; and its sender acts on it
/// where it is known, of the wanted status, and theirs.
pub proof fn law_numbers_are_checked(
    normalized: Result<String, String>,
    record: Option<&PhoneNumberRecord>,
    wanted: Option<RegistrationStatus>,
    owned: bool,
    named: Result<String, ProxyError>,
    r: Result<String, ProxyError>,
)
    requires
        call_ensures(normal_number, (normalized,), named),
        call_ensures(check_owner, (normalized, record, wanted, owned), r),
    ensures
        match normalized {
            Ok(number) => named matches Ok(n) && n@ == number@,
            Err(reason) => named matches Err(e) && e@ == ProxyErrorView::InvalidPhoneNumber(
                reason@,
            ),
        },
        r is Ok <==> normalized is Ok && record is Some && owned && (wanted matches Some(status)
            ==> record->0.status == status),
        r matches Ok(n) ==> n@ == normalized->Ok_0@,
        normalized matches Err(reason) ==> r->Err_0@ == ProxyErrorView::InvalidPhoneNumber(reason@),
        normalized matches Ok(number) ==> (record is None || wanted is Some && record->0.status
            != wanted->0 ==> r->Err_0@ == ProxyErrorView::NotFound(number@)),
        normalized is Ok && record is Some && !(wanted is Some && record->0.status != wanted->0)
            && !owned ==> r->Err_0@ == ProxyErrorView::OwnershipProofMismatch,
{
}

} // verus!
