use crate::pid::Pid;
use vstd::prelude::*;

verus! {

/// An opaque handle to a user address space, owned by the out-of-scope
/// address-space manager and carried here as a plain token.
#[derive(Debug, Clone, Copy, PartialEq, Eq, Structural)]
pub struct AddressSpaceHandle(pub usize);

/// What this core reads of a file resolved from a descriptor: its type.
#[derive(Debug, Clone, Copy, PartialEq, Eq, Structural)]
pub enum FileType {
    /// The descriptor names a socket.
    Socket,
    /// The descriptor names anything else.
    Other,
}

/// An opaque handle to a socket object, identified by the descriptor it was
/// resolved from; the socket itself belongs to the out-of-scope network
/// subsystem.
#[derive(Debug, Clone, Copy, PartialEq, Eq, Structural)]
pub struct SocketHandle(pub usize);

/// A file-descriptor table: what this core reads of each descriptor slot.
#[derive(Debug)]
pub struct FileDescriptorVec {
    /// One slot per descriptor number; an occupied slot records the file's type.
    pub files: Vec<Option<FileType>>,
}

impl FileDescriptorVec {
    /// An empty descriptor table.
    pub fn new() -> (r: Self)
        ensures
            r.files@.len() == 0,
    {
        FileDescriptorVec { files: Vec::new() }
    }

    /// The file type recorded for descriptor `fd`, if the slot exists and
    /// is occupied.
    pub fn get_file_by_fd(&self, fd: i32) -> (r: Option<FileType>)
        ensures
            r == (if 0 <= fd < self.files@.len() {
                self.files@[fd as int]
            } else {
                None::<FileType>
            }),
    {
        if fd < 0 {
            return None;
        }
        let i = fd as usize;
        if i >= self.files.len() {
            return None;
        }
        self.files[i]
    }
}

/// The basic, rarely-changing information of one process.
#[derive(Debug)]
pub struct ProcessBasicInfo {
    /// The process-group id.
    pub pgid: Pid,
    /// The parent process's pid.
    pub ppid: Pid,
    /// The display name.
    pub name: String,
    /// The working directory.
    pub cwd: String,
    /// The user address space, if any.
    pub user_vm: Option<AddressSpaceHandle>,
    /// The file-descriptor table, if any.
    pub fd_table: Option<FileDescriptorVec>,
    /// The owning task group, recorded by its group id and resolved by lookup.
    pub sched_tg: Option<Pid>,
}

impl ProcessBasicInfo {
    /// Fresh basic information with an empty file-descriptor table.
    pub fn new(
        pgid: Pid,
        ppid: Pid,
        name: String,
        cwd: String,
        user_vm: Option<AddressSpaceHandle>,
        sched_tg: Option<Pid>,
    ) -> (r: Self)
        ensures
            r.pgid == pgid,
            r.ppid == ppid,
            r.name@ == name@,
            r.cwd@ == cwd@,
            r.user_vm == user_vm,
            r.fd_table matches Some(t) && t.files@.len() == 0,
            r.sched_tg == sched_tg,
    {
        ProcessBasicInfo {
            pgid,
            ppid,
            name,
            cwd,
            user_vm,
            fd_table: Some(FileDescriptorVec::new()),
            sched_tg,
        }
    }

    pub fn pgid(&self) -> (r: Pid)
        ensures
            r == self.pgid,
    {
        self.pgid
    }

    pub fn set_pgid(&mut self, npgid: Pid)
        ensures
            *final(self) == (ProcessBasicInfo { pgid: npgid, ..*old(self) }),
    {
        self.pgid = npgid;
    }

    pub fn ppid(&self) -> (r: Pid)
        ensures
            r == self.ppid,
    {
        self.ppid
    }

    pub fn name(&self) -> (r: &str)
        ensures
            r@ == self.name@,
    {
        self.name.as_str()
    }

    pub fn set_name(&mut self, name: String)
        ensures
            *final(self) == (ProcessBasicInfo { name, ..*old(self) }),
    {
        self.name = name;
    }

    pub fn cwd(&self) -> (r: String)
        ensures
            r@ == self.cwd@,
    {
        self.cwd.clone()
    }

    pub fn set_cwd(&mut self, path: String)
        ensures
            *final(self) == (ProcessBasicInfo { cwd: path, ..*old(self) }),
    {
        self.cwd = path;
    }

    pub fn user_vm(&self) -> (r: Option<AddressSpaceHandle>)
        ensures
            r == self.user_vm,
    {
        self.user_vm
    }

    pub fn set_user_vm(&mut self, user_vm: Option<AddressSpaceHandle>)
        ensures
            *final(self) == (ProcessBasicInfo { user_vm, ..*old(self) }),
    {
        self.user_vm = user_vm;
    }

    pub fn fd_table(&self) -> (r: &Option<FileDescriptorVec>)
        ensures
            *r == self.fd_table,
    {
        &self.fd_table
    }

    pub fn set_fd_table(&mut self, fd_table: Option<FileDescriptorVec>)
        ensures
            *final(self) == (ProcessBasicInfo { fd_table, ..*old(self) }),
    {
        self.fd_table = fd_table;
    }

    pub fn set_tg(&mut self, tg: Option<Pid>)
        ensures
            *final(self) == (ProcessBasicInfo { sched_tg: tg, ..*old(self) }),
    {
        self.sched_tg = tg;
    }

    pub fn tg(&self) -> (r: Option<Pid>)
        ensures
            r == self.sched_tg,
    {
        self.sched_tg
    }
}

} // verus!
