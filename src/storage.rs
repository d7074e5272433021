//! Decisions of the file storage endpoints: who may upload, delete or share a
//! file, and the name an upload is stored under.

use vstd::prelude::*;
use crate::model::UserStorage;
use crate::text::{chars_of, push_range};
use vstd::string::StringExecFns;

verus! {

/// The storage operations, each gated by one flag of the caller's role.
#[derive(Debug, Clone, Copy, PartialEq, Eq, Structural)]
pub enum StorageOp {
    Upload,
    Delete,
    Token,
}

/// A refusal: the HTTP status and the message.
#[derive(Debug, Clone, Copy)]
pub struct Refusal {
    pub status: u16,
    pub message: &'static str,
}

pub open spec fn may(u: UserStorage, op: StorageOp) -> bool {
    match op {
        StorageOp::Upload => u.can_write,
        StorageOp::Delete => u.can_delete,
        StorageOp::Token => u.can_read,
    }
}

/// Checks a storage caller: without a caller, or with a role that lacks the
/// operation's flag, the request is refused with 401; otherwise the caller's
/// id comes back.
pub fn storage_access(user: &Option<UserStorage>, op: StorageOp) -> (r: Result<i64, Refusal>)
    ensures
        match *user {
            None => r matches Err(f) && f.status == 401 && f.message@ == "please login first"@,
            Some(u) => if may(u, op) {
                r == Ok::<i64, Refusal>(u.id)
            } else {
                r matches Err(f) && f.status == 401 && f.message@ == (match op {
                    StorageOp::Upload => "Unauthorized to upload file"@,
                    StorageOp::Delete => "Unauthorized to delete file"@,
                    StorageOp::Token => "Unauthorized to generate token"@,
                })
            },
        },
{
    match user {
        None => Err(Refusal { status: 401, message: "please login first" }),
        Some(u) => {
            let allowed = match op {
                StorageOp::Upload => u.can_write,
                StorageOp::Delete => u.can_delete,
                StorageOp::Token => u.can_read,
            };
            if allowed {
                Ok(u.id)
            } else {
                let message = match op {
                    StorageOp::Upload => "Unauthorized to upload file",
                    StorageOp::Delete => "Unauthorized to delete file",
                    StorageOp::Token => "Unauthorized to generate token",
                };
                Err(Refusal { status: 401, message })
            }
        },
    }
}

/// What follows the last `.` of a file name; the whole name when it has none.
pub open spec fn extension(f: Seq<char>) -> Seq<char>
    decreases f.len(),
{
    if f.len() == 0 {
        f
    } else if f.last() == '.' {
        seq![]
    } else {
        extension(f.drop_last()).push(f.last())
    }
}

/// The name an upload is stored under: a fresh id, a `.`, and the extension
/// of the uploaded file's name.
pub fn generated_file_name(random_id: &str, file_name: &str) -> (r: String)
    ensures
        r@ == random_id@ + seq!['.'] + extension(file_name@),
{
    let f = chars_of(file_name);
    let mut start: usize = 0;
    let mut i: usize = 0;
    while i < f.len()
        invariant
            start <= i <= f@.len(),
            extension(f@.subrange(0, i as int)) == f@.subrange(start as int, i as int),
        decreases f@.len() - i,
    {
        proof {
            let u = f@.subrange(0, i + 1);
            assert(u.drop_last() == f@.subrange(0, i as int));
            assert(u.last() == f@[i as int]);
        }
        if f[i] == '.' {
            start = i + 1;
        } else {
            assert(f@.subrange(start as int, i + 1) == f@.subrange(start as int, i as int).push(f@[i as int]));
        }
        i = i + 1;
    }
    assert(f@.subrange(0, f@.len() as int) == f@);
    let mut out = String::from_str(random_id);
    out.push('.');
    push_range(&mut out, &f, start, f.len());
    out
}

/// The address a file can be fetched from with a storage token.
pub fn file_url(token: &str) -> (r: String)
    ensures
        r@ == "http://localhost:3456/storage/get?token="@ + token@,
{
    let mut out = String::from_str("http://localhost:3456/storage/get?token=");
    out.append(token);
    out
}

} // verus!
