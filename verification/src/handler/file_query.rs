//! Answers that list shared files.

use crate::dtos::{
    UserReceiveFileDto, UserReceiveFileListResponseDto, UserSendFileDto,
    UserSendFileListResponseDto,
};
use crate::models::{ReceiveFileDetails, SentFileDetails};
use vstd::prelude::*;

verus! {

/// The answer that lists one page of the files that a user has sent, with
/// the number of all of them.
pub fn get_user_shared_files(shared_files: &[SentFileDetails], total_count: i64) -> (r:
    UserSendFileListResponseDto)
    requires
        forall|i: int|
            0 <= i < shared_files@.len() ==> (#[trigger] shared_files@[i]).expiration_date is Some
                && shared_files@[i].created_at is Some,
    ensures
        r.status@ == "success"@,
        r.results == total_count,
        r.files@.len() == shared_files@.len(),
        forall|i: int| 0 <= i < r.files@.len() ==> (#[trigger] r.files@[i]).shows(&shared_files@[i]),
{
    UserSendFileListResponseDto {
        status: "success".to_owned(),
        files: UserSendFileDto::filter_send_user_files(shared_files),
        results: total_count,
    }
}

/// The answer that lists one page of the files that a user has received,
/// with the number of all of them.
pub fn get_receive_shared_files(receive_files: &[ReceiveFileDetails], total_count: i64) -> (r:
    UserReceiveFileListResponseDto)
    requires
        forall|i: int|
            0 <= i < receive_files@.len() ==> (#[trigger] receive_files@[i]).expiration_date is Some
                && receive_files@[i].created_at is Some,
    ensures
        r.status@ == "success"@,
        r.results == total_count,
        r.files@.len() == receive_files@.len(),
        forall|i: int|
            0 <= i < r.files@.len() ==> (#[trigger] r.files@[i]).shows(&receive_files@[i]),
{
    UserReceiveFileListResponseDto {
        status: "success".to_owned(),
        files: UserReceiveFileDto::filter_receive_user_files(receive_files),
        results: total_count,
    }
}

} // verus!
