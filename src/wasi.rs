//! Descriptors of WASI calls: the name of each call and the name and width of
//! each of its arguments.

use vstd::prelude::*;
use vstd::string::StringExecFns;

verus! {

/// Width of an argument, in bytes.
pub type ArgSize = usize;

/// Width of an argument declared without a type: an `i32`.
pub const DEFAULT_ARG_SIZE: ArgSize = 4;

/// Width of the value that every WASI call returns: an `i32` errno.
pub const RET_VAL_SIZE: usize = 4;

/// One formal parameter of a WASI call.
#[derive(Debug, Clone, PartialEq, Eq)]
pub struct AbiArg {
    pub name: String,
    /// The size of the argument in bytes.
    pub size: ArgSize,
}

impl View for AbiArg {
    /// The name and the width.
    type V = (Seq<char>, usize);

    open spec fn view(&self) -> (Seq<char>, usize) {
        (self.name@, self.size)
    }
}

impl AbiArg {
    /// An argument has a positive width.
    pub open spec fn wf(&self) -> bool {
        self.size > 0
    }

    /// An argument with an explicit width.
    pub fn new(name: &str, size: ArgSize) -> (r: AbiArg)
        requires
            size > 0,
        ensures
            r.name@ == name@,
            r.size == size,
            r.wf(),
    {
        AbiArg { name: String::from_str(name), size }
    }

    /// An argument declared without a type, which is an `i32`.
    pub fn untyped(name: &str) -> (r: AbiArg)
        ensures
            r.name@ == name@,
            r.size == DEFAULT_ARG_SIZE,
            r.wf(),
    {
        AbiArg::new(name, DEFAULT_ARG_SIZE)
    }
}

/// The description of one WASI call.
#[derive(Debug, Clone, PartialEq, Eq)]
pub struct WasiAbiDescriptor {
    pub name: String,
    pub args: Vec<AbiArg>,
}

impl View for WasiAbiDescriptor {
    /// The name, and the name and width of each argument.
    type V = (Seq<char>, Seq<(Seq<char>, usize)>);

    open spec fn view(&self) -> (Seq<char>, Seq<(Seq<char>, usize)>) {
        (self.name@, self.args@.map_values(|a: AbiArg| a@))
    }
}

impl WasiAbiDescriptor {
    /// Number of arguments that a call of this ABI takes.
    pub open spec fn arity(&self) -> nat {
        self.args@.len()
    }

    /// Every argument has a positive width.
    pub open spec fn wf(&self) -> bool {
        forall|i: int| 0 <= i < self.args@.len() ==> (#[trigger] self.args@[i]).wf()
    }

    /// No two arguments share a name.
    pub open spec fn names_distinct(&self) -> bool {
        forall|i: int, j: int|
            0 <= i < self.args@.len() && 0 <= j < self.args@.len() && i != j
                ==> #[trigger] self.args@[i].name@ != #[trigger] self.args@[j].name@
    }

    pub fn new(name: &str, args: Vec<AbiArg>) -> (r: WasiAbiDescriptor)
        ensures
            r.name@ == name@,
            r.args@ == args@,
    {
        WasiAbiDescriptor { name: String::from_str(name), args }
    }

    /// The return value of every WASI call is an `i32` errno.
    pub fn ret_val_size() -> (r: usize)
        ensures
            r == RET_VAL_SIZE,
    {
        RET_VAL_SIZE
    }

    /// Whether the argument names are pairwise distinct.
    pub fn args_are_distinct(&self) -> (r: bool)
        ensures
            r == self.names_distinct(),
    {
        let n = self.args.len();
        let mut i: usize = 0;
        while i < n
            invariant
                n == self.args@.len(),
                i <= n,
                forall|a: int, b: int|
                    0 <= a < i && 0 <= b < n && a != b
                        ==> #[trigger] self.args@[a].name@ != #[trigger] self.args@[b].name@,
            decreases n - i,
        {
            let mut j: usize = 0;
            while j < n
                invariant
                    n == self.args@.len(),
                    i < n,
                    j <= n,
                    forall|a: int, b: int|
                        0 <= a < i && 0 <= b < n && a != b
                            ==> #[trigger] self.args@[a].name@ != #[trigger] self.args@[b].name@,
                    forall|b: int|
                        0 <= b < j && b != i ==> self.args@[i as int].name@ != #[trigger] self.args@[b].name@,
                decreases n - j,
            {
                if j != i && self.args[i].name == self.args[j].name {
                    return false;
                }
                j += 1;
            }
            i += 1;
        }
        true
    }
}

/// Number of calls of WASI preview 1 that the registry describes.
pub const PREVIEW1_ABI_COUNT: usize = 46;

/// The WASI preview 1 calls, sockets included, in the registry's order: each
/// name with the name and width of each argument.
pub open spec fn preview1_table() -> Seq<(Seq<char>, Seq<(Seq<char>, usize)>)> {
    seq![
        ("args_get"@, seq![("arg0"@, 4usize), ("arg1"@, 4usize)]),
        ("args_sizes_get"@, seq![("arg0"@, 4usize), ("arg1"@, 4usize)]),
        ("clock_res_get"@, seq![("arg0"@, 4usize), ("arg1"@, 4usize)]),
        ("clock_time_get"@, seq![("clockid"@, 4usize), ("precision"@, 8usize), ("ret_addr"@, 4usize)]),
        ("environ_get"@, seq![("env_addr"@, 4usize), ("env_buf_addr"@, 4usize)]),
        ("environ_sizes_get"@, seq![("env_count_addr"@, 4usize), ("env_buf_size_addr"@, 4usize)]),
        ("proc_exit"@, seq![("exitcode"@, 4usize)]),
        ("proc_raise"@, seq![("sig"@, 4usize)]),
        ("sched_yield"@, seq![]),
        ("random_get"@, seq![("buf_addr"@, 4usize), ("buf_len"@, 4usize)]),
        ("poll_oneoff"@, seq![("in_ptr"@, 4usize), ("out_ptr"@, 4usize), ("nsubscriptions"@, 4usize), ("nevents_ptr"@, 4usize)]),
        ("fd_advise"@, seq![("arg0"@, 4usize), ("arg1"@, 8usize), ("arg2"@, 8usize), ("arg3"@, 4usize)]),
        ("fd_allocate"@, seq![("arg0"@, 4usize), ("arg1"@, 8usize), ("arg2"@, 8usize)]),
        ("fd_close"@, seq![("fd"@, 4usize)]),
        ("fd_datasync"@, seq![("arg0"@, 4usize)]),
        ("fd_fdstat_get"@, seq![("fd"@, 4usize), ("metadata_ptr"@, 4usize)]),
        ("fd_fdstat_set_flags"@, seq![("fd"@, 4usize), ("flags"@, 2usize)]),
        ("fd_fdstat_set_rights"@, seq![("arg0"@, 4usize), ("arg1"@, 8usize), ("arg2"@, 8usize)]),
        ("fd_filestat_get"@, seq![("arg0"@, 4usize), ("arg1"@, 4usize)]),
        ("fd_filestat_set_size"@, seq![("arg0"@, 4usize), ("arg1"@, 8usize)]),
        ("fd_filestat_set_times"@, seq![("arg0"@, 4usize), ("arg1"@, 4usize), ("arg2"@, 4usize), ("arg3"@, 4usize)]),
        ("fd_pread"@, seq![("arg0"@, 4usize), ("arg1"@, 4usize), ("arg2"@, 4usize), ("arg3"@, 8usize), ("arg4"@, 4usize)]),
        ("fd_prestat_get"@, seq![("fd"@, 4usize), ("prestat_ptr"@, 4usize)]),
        ("fd_prestat_dir_name"@, seq![("arg0"@, 4usize), ("arg1"@, 4usize), ("arg2"@, 4usize)]),
        ("fd_pwrite"@, seq![("arg0"@, 4usize), ("arg1"@, 4usize), ("arg2"@, 4usize), ("arg3"@, 8usize), ("arg4"@, 4usize)]),
        ("fd_read"@, seq![("arg0"@, 4usize), ("arg1"@, 4usize), ("arg2"@, 4usize), ("arg3"@, 4usize)]),
        ("fd_readdir"@, seq![("arg0"@, 4usize), ("arg1"@, 4usize), ("arg2"@, 4usize), ("arg3"@, 8usize), ("arg4"@, 4usize)]),
        ("fd_renumber"@, seq![("arg0"@, 4usize), ("arg1"@, 4usize)]),
        ("fd_seek"@, seq![("arg0"@, 4usize), ("arg1"@, 8usize), ("arg2"@, 4usize), ("arg3"@, 4usize)]),
        ("fd_sync"@, seq![("fd"@, 4usize)]),
        ("fd_tell"@, seq![("arg0"@, 4usize), ("arg1"@, 4usize)]),
        ("fd_write"@, seq![("fd"@, 4usize), ("iovs_addr"@, 4usize), ("iovs_len"@, 4usize), ("bytes_written_ptr"@, 4usize)]),
        ("path_create_directory"@, seq![("arg0"@, 4usize), ("arg1"@, 4usize), ("arg2"@, 4usize)]),
        ("path_filestat_get"@, seq![("arg0"@, 4usize), ("arg1"@, 4usize), ("arg2"@, 4usize), ("arg3"@, 4usize), ("arg4"@, 4usize)]),
        ("path_filestat_set_times"@, seq![("arg0"@, 4usize), ("arg1"@, 4usize), ("arg2"@, 4usize), ("arg3"@, 4usize), ("arg4"@, 8usize), ("arg5"@, 8usize), ("arg6"@, 4usize)]),
        ("path_link"@, seq![("arg0"@, 4usize), ("arg1"@, 4usize), ("arg2"@, 4usize), ("arg3"@, 4usize), ("arg4"@, 4usize), ("arg5"@, 4usize), ("arg6"@, 4usize)]),
        ("path_open"@, seq![("arg0"@, 4usize), ("arg1"@, 4usize), ("arg2"@, 4usize), ("arg3"@, 4usize), ("arg4"@, 4usize), ("arg5"@, 8usize), ("arg6"@, 8usize), ("arg7"@, 4usize), ("arg8"@, 4usize)]),
        ("path_readlink"@, seq![("arg0"@, 4usize), ("arg1"@, 4usize), ("arg2"@, 4usize), ("arg3"@, 4usize), ("arg4"@, 4usize), ("arg5"@, 4usize)]),
        ("path_remove_directory"@, seq![("arg0"@, 4usize), ("arg1"@, 4usize), ("arg2"@, 4usize)]),
        ("path_rename"@, seq![("arg0"@, 4usize), ("arg1"@, 4usize), ("arg2"@, 4usize), ("arg3"@, 4usize), ("arg4"@, 4usize), ("arg5"@, 4usize)]),
        ("path_symlink"@, seq![("arg0"@, 4usize), ("arg1"@, 4usize), ("arg2"@, 4usize), ("arg3"@, 4usize), ("arg4"@, 4usize)]),
        ("path_unlink_file"@, seq![("arg0"@, 4usize), ("arg1"@, 4usize), ("arg2"@, 4usize)]),
        ("sock_recv"@, seq![("fd"@, 4usize), ("ri_data_ptr"@, 4usize), ("ri_data_len"@, 4usize), ("ri_flags"@, 4usize), ("ro_data_len_ptr"@, 4usize), ("ro_flags_ptr"@, 4usize)]),
        ("sock_send"@, seq![("fd"@, 4usize), ("si_data_ptr"@, 4usize), ("si_data_len"@, 4usize), ("si_flags"@, 4usize), ("so_data_len_ptr"@, 4usize)]),
        ("sock_shutdown"@, seq![("fd"@, 4usize), ("how"@, 4usize)]),
        ("sock_accept"@, seq![("fd"@, 4usize), ("flags"@, 4usize), ("accepted_fd_ptr"@, 4usize)]),
    ]
}

/// The names of the WASI preview 1 calls, in the registry's order.
pub open spec fn preview1_names() -> Seq<Seq<char>> {
    preview1_table().map_values(|e: (Seq<char>, Seq<(Seq<char>, usize)>)| e.0)
}

pub open spec fn descriptor_views(v: Seq<WasiAbiDescriptor>) -> Seq<(Seq<char>, Seq<(Seq<char>, usize)>)> {
    v.map_values(|d: WasiAbiDescriptor| d@)
}

/// The descriptors of the WASI preview 1 calls, sockets included.
#[verifier::rlimit(60)]
pub fn preview1() -> (r: Vec<WasiAbiDescriptor>)
    ensures
        r@.len() == PREVIEW1_ABI_COUNT,
        descriptor_views(r@) == preview1_table(),
        forall|i: int| 0 <= i < r@.len() ==> (#[trigger] r@[i]).wf(),
{
    let mut r: Vec<WasiAbiDescriptor> = Vec::new();
    r.push(WasiAbiDescriptor::new("args_get", vec![AbiArg::new("arg0", 4), AbiArg::new("arg1", 4)]));
    assert(descriptor_views(r@) =~~= preview1_table().take(1));
    r.push(WasiAbiDescriptor::new("args_sizes_get", vec![AbiArg::new("arg0", 4), AbiArg::new("arg1", 4)]));
    assert(descriptor_views(r@) =~~= preview1_table().take(2));
    r.push(WasiAbiDescriptor::new("clock_res_get", vec![AbiArg::new("arg0", 4), AbiArg::new("arg1", 4)]));
    assert(descriptor_views(r@) =~~= preview1_table().take(3));
    r.push(WasiAbiDescriptor::new("clock_time_get", vec![AbiArg::new("clockid", 4), AbiArg::new("precision", 8), AbiArg::new("ret_addr", 4)]));
    assert(descriptor_views(r@) =~~= preview1_table().take(4));
    r.push(WasiAbiDescriptor::new("environ_get", vec![AbiArg::new("env_addr", 4), AbiArg::new("env_buf_addr", 4)]));
    assert(descriptor_views(r@) =~~= preview1_table().take(5));
    r.push(WasiAbiDescriptor::new("environ_sizes_get", vec![AbiArg::new("env_count_addr", 4), AbiArg::new("env_buf_size_addr", 4)]));
    assert(descriptor_views(r@) =~~= preview1_table().take(6));
    r.push(WasiAbiDescriptor::new("proc_exit", vec![AbiArg::new("exitcode", 4)]));
    assert(descriptor_views(r@) =~~= preview1_table().take(7));
    r.push(WasiAbiDescriptor::new("proc_raise", vec![AbiArg::new("sig", 4)]));
    assert(descriptor_views(r@) =~~= preview1_table().take(8));
    r.push(WasiAbiDescriptor::new("sched_yield", Vec::new()));
    assert(descriptor_views(r@) =~~= preview1_table().take(9));
    r.push(WasiAbiDescriptor::new("random_get", vec![AbiArg::new("buf_addr", 4), AbiArg::new("buf_len", 4)]));
    assert(descriptor_views(r@) =~~= preview1_table().take(10));
    r.push(WasiAbiDescriptor::new("poll_oneoff", vec![AbiArg::new("in_ptr", 4), AbiArg::new("out_ptr", 4), AbiArg::new("nsubscriptions", 4), AbiArg::new("nevents_ptr", 4)]));
    assert(descriptor_views(r@) =~~= preview1_table().take(11));
    r.push(WasiAbiDescriptor::new("fd_advise", vec![AbiArg::new("arg0", 4), AbiArg::new("arg1", 8), AbiArg::new("arg2", 8), AbiArg::new("arg3", 4)]));
    assert(descriptor_views(r@) =~~= preview1_table().take(12));
    r.push(WasiAbiDescriptor::new("fd_allocate", vec![AbiArg::new("arg0", 4), AbiArg::new("arg1", 8), AbiArg::new("arg2", 8)]));
    assert(descriptor_views(r@) =~~= preview1_table().take(13));
    r.push(WasiAbiDescriptor::new("fd_close", vec![AbiArg::new("fd", 4)]));
    assert(descriptor_views(r@) =~~= preview1_table().take(14));
    r.push(WasiAbiDescriptor::new("fd_datasync", vec![AbiArg::new("arg0", 4)]));
    assert(descriptor_views(r@) =~~= preview1_table().take(15));
    r.push(WasiAbiDescriptor::new("fd_fdstat_get", vec![AbiArg::new("fd", 4), AbiArg::new("metadata_ptr", 4)]));
    assert(descriptor_views(r@) =~~= preview1_table().take(16));
    r.push(WasiAbiDescriptor::new("fd_fdstat_set_flags", vec![AbiArg::new("fd", 4), AbiArg::new("flags", 2)]));
    assert(descriptor_views(r@) =~~= preview1_table().take(17));
    r.push(WasiAbiDescriptor::new("fd_fdstat_set_rights", vec![AbiArg::new("arg0", 4), AbiArg::new("arg1", 8), AbiArg::new("arg2", 8)]));
    assert(descriptor_views(r@) =~~= preview1_table().take(18));
    r.push(WasiAbiDescriptor::new("fd_filestat_get", vec![AbiArg::new("arg0", 4), AbiArg::new("arg1", 4)]));
    assert(descriptor_views(r@) =~~= preview1_table().take(19));
    r.push(WasiAbiDescriptor::new("fd_filestat_set_size", vec![AbiArg::new("arg0", 4), AbiArg::new("arg1", 8)]));
    assert(descriptor_views(r@) =~~= preview1_table().take(20));
    r.push(WasiAbiDescriptor::new("fd_filestat_set_times", vec![AbiArg::new("arg0", 4), AbiArg::new("arg1", 4), AbiArg::new("arg2", 4), AbiArg::new("arg3", 4)]));
    assert(descriptor_views(r@) =~~= preview1_table().take(21));
    r.push(WasiAbiDescriptor::new("fd_pread", vec![AbiArg::new("arg0", 4), AbiArg::new("arg1", 4), AbiArg::new("arg2", 4), AbiArg::new("arg3", 8), AbiArg::new("arg4", 4)]));
    assert(descriptor_views(r@) =~~= preview1_table().take(22));
    r.push(WasiAbiDescriptor::new("fd_prestat_get", vec![AbiArg::new("fd", 4), AbiArg::new("prestat_ptr", 4)]));
    assert(descriptor_views(r@) =~~= preview1_table().take(23));
    r.push(WasiAbiDescriptor::new("fd_prestat_dir_name", vec![AbiArg::new("arg0", 4), AbiArg::new("arg1", 4), AbiArg::new("arg2", 4)]));
    assert(descriptor_views(r@) =~~= preview1_table().take(24));
    r.push(WasiAbiDescriptor::new("fd_pwrite", vec![AbiArg::new("arg0", 4), AbiArg::new("arg1", 4), AbiArg::new("arg2", 4), AbiArg::new("arg3", 8), AbiArg::new("arg4", 4)]));
    assert(descriptor_views(r@) =~~= preview1_table().take(25));
    r.push(WasiAbiDescriptor::new("fd_read", vec![AbiArg::new("arg0", 4), AbiArg::new("arg1", 4), AbiArg::new("arg2", 4), AbiArg::new("arg3", 4)]));
    assert(descriptor_views(r@) =~~= preview1_table().take(26));
    r.push(WasiAbiDescriptor::new("fd_readdir", vec![AbiArg::new("arg0", 4), AbiArg::new("arg1", 4), AbiArg::new("arg2", 4), AbiArg::new("arg3", 8), AbiArg::new("arg4", 4)]));
    assert(descriptor_views(r@) =~~= preview1_table().take(27));
    r.push(WasiAbiDescriptor::new("fd_renumber", vec![AbiArg::new("arg0", 4), AbiArg::new("arg1", 4)]));
    assert(descriptor_views(r@) =~~= preview1_table().take(28));
    r.push(WasiAbiDescriptor::new("fd_seek", vec![AbiArg::new("arg0", 4), AbiArg::new("arg1", 8), AbiArg::new("arg2", 4), AbiArg::new("arg3", 4)]));
    assert(descriptor_views(r@) =~~= preview1_table().take(29));
    r.push(WasiAbiDescriptor::new("fd_sync", vec![AbiArg::new("fd", 4)]));
    assert(descriptor_views(r@) =~~= preview1_table().take(30));
    r.push(WasiAbiDescriptor::new("fd_tell", vec![AbiArg::new("arg0", 4), AbiArg::new("arg1", 4)]));
    assert(descriptor_views(r@) =~~= preview1_table().take(31));
    r.push(WasiAbiDescriptor::new("fd_write", vec![AbiArg::new("fd", 4), AbiArg::new("iovs_addr", 4), AbiArg::new("iovs_len", 4), AbiArg::new("bytes_written_ptr", 4)]));
    assert(descriptor_views(r@) =~~= preview1_table().take(32));
    r.push(WasiAbiDescriptor::new("path_create_directory", vec![AbiArg::new("arg0", 4), AbiArg::new("arg1", 4), AbiArg::new("arg2", 4)]));
    assert(descriptor_views(r@) =~~= preview1_table().take(33));
    r.push(WasiAbiDescriptor::new("path_filestat_get", vec![AbiArg::new("arg0", 4), AbiArg::new("arg1", 4), AbiArg::new("arg2", 4), AbiArg::new("arg3", 4), AbiArg::new("arg4", 4)]));
    assert(descriptor_views(r@) =~~= preview1_table().take(34));
    r.push(WasiAbiDescriptor::new("path_filestat_set_times", vec![AbiArg::new("arg0", 4), AbiArg::new("arg1", 4), AbiArg::new("arg2", 4), AbiArg::new("arg3", 4), AbiArg::new("arg4", 8), AbiArg::new("arg5", 8), AbiArg::new("arg6", 4)]));
    assert(descriptor_views(r@) =~~= preview1_table().take(35));
    r.push(WasiAbiDescriptor::new("path_link", vec![AbiArg::new("arg0", 4), AbiArg::new("arg1", 4), AbiArg::new("arg2", 4), AbiArg::new("arg3", 4), AbiArg::new("arg4", 4), AbiArg::new("arg5", 4), AbiArg::new("arg6", 4)]));
    assert(descriptor_views(r@) =~~= preview1_table().take(36));
    r.push(WasiAbiDescriptor::new("path_open", vec![AbiArg::new("arg0", 4), AbiArg::new("arg1", 4), AbiArg::new("arg2", 4), AbiArg::new("arg3", 4), AbiArg::new("arg4", 4), AbiArg::new("arg5", 8), AbiArg::new("arg6", 8), AbiArg::new("arg7", 4), AbiArg::new("arg8", 4)]));
    assert(descriptor_views(r@) =~~= preview1_table().take(37));
    r.push(WasiAbiDescriptor::new("path_readlink", vec![AbiArg::new("arg0", 4), AbiArg::new("arg1", 4), AbiArg::new("arg2", 4), AbiArg::new("arg3", 4), AbiArg::new("arg4", 4), AbiArg::new("arg5", 4)]));
    assert(descriptor_views(r@) =~~= preview1_table().take(38));
    r.push(WasiAbiDescriptor::new("path_remove_directory", vec![AbiArg::new("arg0", 4), AbiArg::new("arg1", 4), AbiArg::new("arg2", 4)]));
    assert(descriptor_views(r@) =~~= preview1_table().take(39));
    r.push(WasiAbiDescriptor::new("path_rename", vec![AbiArg::new("arg0", 4), AbiArg::new("arg1", 4), AbiArg::new("arg2", 4), AbiArg::new("arg3", 4), AbiArg::new("arg4", 4), AbiArg::new("arg5", 4)]));
    assert(descriptor_views(r@) =~~= preview1_table().take(40));
    r.push(WasiAbiDescriptor::new("path_symlink", vec![AbiArg::new("arg0", 4), AbiArg::new("arg1", 4), AbiArg::new("arg2", 4), AbiArg::new("arg3", 4), AbiArg::new("arg4", 4)]));
    assert(descriptor_views(r@) =~~= preview1_table().take(41));
    r.push(WasiAbiDescriptor::new("path_unlink_file", vec![AbiArg::new("arg0", 4), AbiArg::new("arg1", 4), AbiArg::new("arg2", 4)]));
    assert(descriptor_views(r@) =~~= preview1_table().take(42));
    r.push(WasiAbiDescriptor::new("sock_recv", vec![AbiArg::new("fd", 4), AbiArg::new("ri_data_ptr", 4), AbiArg::new("ri_data_len", 4), AbiArg::new("ri_flags", 4), AbiArg::new("ro_data_len_ptr", 4), AbiArg::new("ro_flags_ptr", 4)]));
    assert(descriptor_views(r@) =~~= preview1_table().take(43));
    r.push(WasiAbiDescriptor::new("sock_send", vec![AbiArg::new("fd", 4), AbiArg::new("si_data_ptr", 4), AbiArg::new("si_data_len", 4), AbiArg::new("si_flags", 4), AbiArg::new("so_data_len_ptr", 4)]));
    assert(descriptor_views(r@) =~~= preview1_table().take(44));
    r.push(WasiAbiDescriptor::new("sock_shutdown", vec![AbiArg::new("fd", 4), AbiArg::new("how", 4)]));
    assert(descriptor_views(r@) =~~= preview1_table().take(45));
    r.push(WasiAbiDescriptor::new("sock_accept", vec![AbiArg::new("fd", 4), AbiArg::new("flags", 4), AbiArg::new("accepted_fd_ptr", 4)]));
    assert(descriptor_views(r@) =~~= preview1_table().take(46));
    assert(preview1_table().take(46) =~= preview1_table());
    r
}

/// The names of the WASI preview 1 calls, in the registry's order.
pub fn wasi_names() -> (r: Vec<String>)
    ensures
        r@.map_values(|s: String| s@) == preview1_names(),
{
    let abis = preview1();
    let mut r: Vec<String> = Vec::new();
    let mut i: usize = 0;
    while i < abis.len()
        invariant
            i <= abis@.len(),
            descriptor_views(abis@) == preview1_table(),
            r@.map_values(|s: String| s@) =~= preview1_names().take(i as int),
        decreases abis@.len() - i,
    {
        let ghost before = r@;
        r.push(abis[i].name.clone());
        proof {
            assert(r@.map_values(|s: String| s@) =~= before.map_values(|s: String| s@).push(
                abis@[i as int].name@,
            ));
            assert(descriptor_views(abis@)[i as int] == abis@[i as int]@);
        }
        i += 1;
        proof {
            assert(preview1_names().take(i as int) =~= preview1_names().take(i as int - 1).push(
                preview1_names()[i as int - 1],
            ));
        }
    }
    assert(preview1_names().take(i as int) =~= preview1_names());
    r
}


/// The first descriptor of `registry` named `name`.
pub fn lookup<'a>(registry: &'a [WasiAbiDescriptor], name: &str) -> (r: Option<&'a WasiAbiDescriptor>)
    ensures
        r matches Some(d) ==> exists|i: int|
            0 <= i < registry@.len() && registry@[i] == *d && d.name@ == name@ && forall|j: int|
                0 <= j < i ==> (#[trigger] registry@[j]).name@ != name@,
        r is None ==> forall|i: int| 0 <= i < registry@.len() ==> (#[trigger] registry@[i]).name@ != name@,
{
    let key = String::from_str(name);
    let mut i: usize = 0;
    while i < registry.len()
        invariant
            i <= registry@.len(),
            key@ == name@,
            forall|j: int| 0 <= j < i ==> (#[trigger] registry@[j]).name@ != name@,
        decreases registry@.len() - i,
    {
        if registry[i].name == key {
            return Some(&registry[i]);
        }
        i += 1;
    }
    None
}

} // verus!
