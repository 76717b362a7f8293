//! The group service: lookups by group id, and the records they return.

use vstd::prelude::*;
use libc::{c_int, gid_t};
use crate::channel::{CapChannel, Casper};
use crate::error::OsError;
use crate::memory::{str_at, str_list_at, Image, PtrLayout};

verus! {

/// The size of the scratch buffer of one lookup, in bytes. A record that
/// needs more is reported by the native call as an error: the buffer does
/// not grow.
pub const BUFSIZE: usize = 1 << 20;

/// The name under which the broker knows the group service.
pub const SERVICE_NAME: &'static str = "system.grp";

/// The service's name can be handed to the broker as a C string: it holds no
/// NUL.
pub proof fn lemma_service_name()
    ensures
        SERVICE_NAME@.len() == 10,
        forall|i: int| 0 <= i < SERVICE_NAME@.len() ==> SERVICE_NAME@[i] != '\0',
{
    reveal_strlit("system.grp");
}

/// The fields of a native group record, pointers as addresses.
#[derive(Debug, Clone, Copy, PartialEq, Eq, Hash, Structural)]
pub struct RawGroup {
    /// Points to the group's name.
    pub gr_name: usize,
    /// Points to the group's password.
    pub gr_passwd: usize,
    /// The group's id.
    pub gr_gid: gid_t,
    /// Points to a null-terminated array of pointers to the members' names.
    pub gr_mem: usize,
}

/// What a group record says.
pub ghost struct GroupView {
    pub gid: gid_t,
    pub name: Seq<u8>,
    pub passwd: Seq<u8>,
    pub members: Seq<Seq<u8>>,
}

/// What the record `raw` says, where `mem` are the bytes of the region that
/// it points into and `base` is the address of the region's first byte.
/// It says nothing where a pointer of it leads to no string, or its member
/// array to no list.
pub open spec fn decode_spec(raw: RawGroup, mem: Seq<u8>, base: int, layout: PtrLayout) -> Option<
    GroupView,
> {
    match (
        str_at(mem, base, raw.gr_name as int),
        str_at(mem, base, raw.gr_passwd as int),
        str_list_at(mem, base, raw.gr_mem as int, layout),
    ) {
        (Some(name), Some(passwd), Some(members)) => Some(
            GroupView { gid: raw.gr_gid, name, passwd, members },
        ),
        _ => None,
    }
}

/// A group entry: a native record together with the buffer that it points
/// into. The buffer is never written, and every view of the entry borrows
/// from it.
#[derive(Debug)]
pub struct Group {
    grp: RawGroup,
    buf: Image,
    layout: PtrLayout,
}

impl Group {
    #[verifier::type_invariant]
    spec fn inv(self) -> bool {
        decode_spec(self.grp, self.buf.bytes@, self.buf.base as int, self.layout) is Some
    }

    /// What the entry says.
    pub closed spec fn view(&self) -> GroupView {
        decode_spec(self.grp, self.buf.bytes@, self.buf.base as int, self.layout)->Some_0
    }

    /// Takes a record and its buffer as an entry, if every pointer of the
    /// record leads to a string inside the buffer and the member array ends
    /// inside it.
    pub fn decode(raw: RawGroup, image: Image, layout: PtrLayout) -> (r: Option<Group>)
        ensures
            match r {
                Some(g) => decode_spec(raw, image.bytes@, image.base as int, layout) == Some(g@),
                None => decode_spec(raw, image.bytes@, image.base as int, layout) is None,
            },
    {
        if image.c_str_at(raw.gr_name as u64).is_none() {
            return None;
        }
        if image.c_str_at(raw.gr_passwd as u64).is_none() {
            return None;
        }
        let w = layout.ptr_bytes();
        let len = image.bytes.len();
        let mut at: usize = match image.locate(raw.gr_mem as u64) {
            Some(ofs) => ofs,
            None => {
                return None;
            },
        };
        loop
            invariant
                w == layout.ptr_bytes(),
                len == image.bytes@.len(),
                at <= len,
                str_at(image.bytes@, image.base as int, raw.gr_name as int) is Some,
                str_at(image.bytes@, image.base as int, raw.gr_passwd as int) is Some,
                str_list_at(image.bytes@, image.base as int, raw.gr_mem as int, layout) is Some
                    <==> str_list_at(image.bytes@, image.base as int, image.base + at, layout)
                    is Some,
            ensures
                str_list_at(image.bytes@, image.base as int, raw.gr_mem as int, layout) is Some,
            decreases len - at,
        {
            match image.read_ptr(at, layout) {
                None => {
                    return None;
                },
                Some(p) => {
                    if p == 0 {
                        break ;
                    }
                    if image.c_str_at(p).is_none() {
                        return None;
                    }
                    at = at + w;
                },
            }
        }
        Some(Group { grp: raw, buf: image, layout })
    }

    /// Group ID
    pub fn gid(&self) -> (gid: gid_t)
        ensures
            gid == self@.gid,
    {
        proof {
            use_type_invariant(self);
        }
        self.grp.gr_gid
    }

    /// Group name
    pub fn name(&self) -> (name: &[u8])
        ensures
            name@ == self@.name,
    {
        proof {
            use_type_invariant(self);
        }
        match self.buf.c_str_at(self.grp.gr_name as u64) {
            Some(s) => s,
            // An entry always has its name: this arm is never taken.
            None => vstd::slice::slice_subrange(self.buf.bytes.as_slice(), 0, 0),
        }
    }

    /// Group password
    pub fn passwd(&self) -> (passwd: &[u8])
        ensures
            passwd@ == self@.passwd,
    {
        proof {
            use_type_invariant(self);
        }
        match self.buf.c_str_at(self.grp.gr_passwd as u64) {
            Some(s) => s,
            // An entry always has its password: this arm is never taken.
            None => vstd::slice::slice_subrange(self.buf.bytes.as_slice(), 0, 0),
        }
    }

    /// Group members
    pub fn members(&self) -> (members: Members<'_>)
        ensures
            members.remaining() == self@.members,
            members.group() == self,
    {
        proof {
            use_type_invariant(self);
        }
        let at = match self.buf.locate(self.grp.gr_mem as u64) {
            Some(ofs) => ofs,
            // An entry's member array lies in its buffer: this arm is never
            // taken.
            None => 0,
        };
        Members { grp: self, at }
    }
}

/// The membership list of a [`Group`]: a cursor over the entry's array of
/// member pointers, which ends at the first null pointer.
pub struct Members<'a> {
    grp: &'a Group,
    at: usize,
}

impl<'a> Members<'a> {
    #[verifier::type_invariant]
    spec fn inv(self) -> bool {
        str_list_at(
            self.grp.buf.bytes@,
            self.grp.buf.base as int,
            self.grp.buf.base + self.at,
            self.grp.layout,
        ) is Some
    }

    /// The entry whose members these are.
    pub closed spec fn group(&self) -> &'a Group {
        self.grp
    }

    /// The members that the cursor has not handed out yet, in order.
    pub closed spec fn remaining(&self) -> Seq<Seq<u8>> {
        str_list_at(
            self.grp.buf.bytes@,
            self.grp.buf.base as int,
            self.grp.buf.base + self.at,
            self.grp.layout,
        )->Some_0
    }

    /// Hands out the next member and moves past it, or stops at the null
    /// pointer that ends the list and stays there.
    pub fn next(&mut self) -> (r: Option<&'a [u8]>)
        ensures
            final(self).group() == old(self).group(),
            old(self).remaining().len() == 0 ==> r is None && final(self).remaining()
                =~= old(self).remaining(),
            old(self).remaining().len() > 0 ==> r is Some && r->Some_0@ == old(
                self,
            ).remaining().first() && final(self).remaining() == old(
                self,
            ).remaining().drop_first(),
    {
        proof {
            use_type_invariant(&*self);
        }
        let g: &'a Group = self.grp;
        // The buffer's length fits a usize, and so does every place in the
        // array.
        let _len = g.buf.bytes.len();
        // Of the arms below only two are ever taken: the cursor stands on a
        // pointer inside the buffer, which is null or points to a string.
        match g.buf.read_ptr(self.at, g.layout) {
            None => None,
            Some(p) => {
                if p == 0 {
                    None
                } else {
                    match g.buf.c_str_at(p) {
                        None => None,
                        Some(s) => {
                            proof {
                                let rest = str_list_at(
                                    g.buf.bytes@,
                                    g.buf.base as int,
                                    g.buf.base + self.at + g.layout.ptr_bytes(),
                                    g.layout,
                                )->Some_0;
                                assert((seq![s@] + rest).drop_first() =~= rest);
                            }
                            self.at = self.at + g.layout.ptr_bytes();
                            Some(s)
                        },
                    }
                }
            },
        }
    }

    /// The members that the cursor has not handed out yet, in order. The
    /// walk over them ends: the list is no longer than what lies between the
    /// cursor and the null pointer.
    pub fn to_vec(&self) -> (names: Vec<&'a [u8]>)
        ensures
            names@.len() == self.remaining().len(),
            forall|i: int| 0 <= i < names@.len() ==> names@[i]@ == self.remaining()[i],
    {
        proof {
            use_type_invariant(self);
        }
        let mut cursor = Members { grp: self.grp, at: self.at };
        let mut names: Vec<&'a [u8]> = Vec::new();
        loop
            invariant
                names@.len() + cursor.remaining().len() == self.remaining().len(),
                forall|i: int| 0 <= i < names@.len() ==> names@[i]@ == self.remaining()[i],
                forall|i: int|
                    0 <= i < cursor.remaining().len() ==> cursor.remaining()[i]
                        == self.remaining()[names@.len() + i],
            ensures
                cursor.remaining().len() == 0,
            decreases cursor.remaining().len(),
        {
            match cursor.next() {
                None => {
                    break ;
                },
                Some(s) => {
                    names.push(s);
                },
            }
        }
        names
    }
}

/// What a lookup left behind: the outcome of the native call, as plain values.
#[derive(Debug)]
pub struct GroupReply {
    /// What the native call returned: zero where it worked.
    pub status: c_int,
    /// The error code read right after the call.
    pub errno: i32,
    /// The address stored through the result pointer: null where no group has
    /// the id.
    pub result: usize,
    /// The address of the record that was handed to the call.
    pub record: usize,
    /// The record after the call.
    pub raw: RawGroup,
    /// The scratch buffer after the call.
    pub buf: Image,
    /// How the native side stores the pointers of the member array.
    pub layout: PtrLayout,
}

/// Why a lookup gave no answer.
#[derive(Debug, Clone, Copy, PartialEq, Eq, Hash, Structural)]
pub enum LookupError {
    /// The native call failed, with this code: the buffer was too small for
    /// the entry, or the system refused.
    Os(OsError),
    /// The native call reported an entry that its buffer does not hold.
    Malformed,
}

/// What a lookup returns for each reply.
pub open spec fn lookup_spec(reply: GroupReply) -> Result<Option<GroupView>, LookupError> {
    if reply.status != 0 {
        Err(LookupError::Os(OsError { code: reply.errno }))
    } else if reply.result == 0 {
        Ok(None)
    } else {
        match decode_spec(reply.raw, reply.buf.bytes@, reply.buf.base as int, reply.layout) {
            Some(entry) => Ok(Some(entry)),
            None => Err(LookupError::Malformed),
        }
    }
}

/// A connection to the group service.
#[derive(Debug)]
pub struct CapGroup {
    chan: CapChannel,
}

impl CapGroup {
    /// The channel to the service.
    pub closed spec fn spec_channel(&self) -> &CapChannel {
        &self.chan
    }

    /// The channel to the service.
    #[verifier::when_used_as_spec(spec_channel)]
    pub fn channel(&self) -> (chan: &CapChannel)
        ensures
            chan == self.spec_channel(),
    {
        &self.chan
    }

    /// Completes the lookup of a group by its id.
    ///
    /// There are three outcomes: the entry, where the call worked and stored
    /// a result; none, where it worked and stored null, which is no error;
    /// and the error of the call. A fourth is this crate's own: the call
    /// reported an entry that does not lie in the buffer.
    ///
    /// A result that is neither null nor the record handed to the call is
    /// left out: the native call stores no other.
    pub fn getgrgid(&mut self, reply: GroupReply) -> (r: Result<Option<Group>, LookupError>)
        requires
            reply.status == 0 && reply.result != 0 ==> reply.result == reply.record,
        ensures
            *final(self) == *old(self),
            match r {
                Ok(Some(entry)) => lookup_spec(reply) == Ok::<Option<GroupView>, LookupError>(
                    Some(entry@),
                ),
                Ok(None) => lookup_spec(reply) == Ok::<Option<GroupView>, LookupError>(None),
                Err(e) => lookup_spec(reply) == Err::<Option<GroupView>, LookupError>(e),
            },
    {
        if reply.status != 0 {
            Err(LookupError::Os(OsError { code: reply.errno }))
        } else if reply.result == 0 {
            Ok(None)
        } else {
            match Group::decode(reply.raw, reply.buf, reply.layout) {
                Some(entry) => Ok(Some(entry)),
                None => Err(LookupError::Malformed),
            }
        }
    }
}

impl Casper {
    /// Completes the opening of the group service. `raw` is the handle that
    /// the broker returned for [`SERVICE_NAME`] and `errno` the error code
    /// read right after the call.
    pub fn group(&self, raw: usize, errno: i32) -> (r: Result<CapGroup, OsError>)
        ensures
            raw == 0 ==> r == Err::<CapGroup, OsError>(OsError { code: errno }),
            raw != 0 ==> r is Ok && r->Ok_0.channel().addr() == raw,
    {
        match self.service_open(raw, errno) {
            Ok(chan) => Ok(CapGroup { chan }),
            Err(e) => Err(e),
        }
    }
}

/// A lookup finds no group exactly where the native call worked and stored a
/// null result: then it is neither an error nor an entry, whatever else the
/// reply holds.
pub proof fn lemma_not_found(reply: GroupReply)
    ensures
        lookup_spec(reply) == Ok::<Option<GroupView>, LookupError>(None) <==> reply.status == 0
            && reply.result == 0,
{
}

} // verus!
