use vstd::prelude::*;

use crate::backend::{Backend, Reg};

verus! {

/// The numeric identifier that stands for a trap whose syscall-number
/// register holds no canonical identifier; no real syscall uses it, so a
/// dispatch table lookup with it always misses.
pub const UNKNOWN_SYSCALL_NUMBER: u64 = 0xffff_ffff_ffff_ffff;

/// Canonical syscall identifiers read from the syscall-number register at
/// trap time: the asm-generic numbering of the arm64 Linux/Android kernel
/// ABI, plus the legacy 32-bit aliases from 1024 up. Guest binaries encode
/// these numbers directly, so the mapping must stay complete and stable.
#[allow(non_camel_case_types)]
#[derive(Clone, Copy, Debug, PartialEq, Eq, Structural)]
pub enum Syscalls {
    __NR_io_setup,
    __NR_io_destroy,
    __NR_io_submit,
    __NR_io_cancel,
    __NR_io_getevents,
    __NR_setxattr,
    __NR_lsetxattr,
    __NR_fsetxattr,
    __NR_getxattr,
    __NR_lgetxattr,
    __NR_fgetxattr,
    __NR_listxattr,
    __NR_llistxattr,
    __NR_flistxattr,
    __NR_removexattr,
    __NR_lremovexattr,
    __NR_fremovexattr,
    __NR_getcwd,
    __NR_lookup_dcookie,
    __NR_eventfd2,
    __NR_epoll_create1,
    __NR_epoll_ctl,
    __NR_epoll_pwait,
    __NR_dup,
    __NR_dup3,
    __NR3264_fcntl,
    __NR_inotify_init1,
    __NR_inotify_add_watch,
    __NR_inotify_rm_watch,
    __NR_ioctl,
    __NR_ioprio_set,
    __NR_ioprio_get,
    __NR_flock,
    __NR_mknodat,
    __NR_mkdirat,
    __NR_unlinkat,
    __NR_symlinkat,
    __NR_linkat,
    __NR_renameat,
    __NR_umount2,
    __NR_mount,
    __NR_pivot_root,
    __NR_nfsservctl,
    __NR3264_statfs,
    __NR3264_fstatfs,
    __NR3264_truncate,
    __NR3264_ftruncate,
    __NR_fallocate,
    __NR_faccessat,
    __NR_chdir,
    __NR_fchdir,
    __NR_chroot,
    __NR_fchmod,
    __NR_fchmodat,
    __NR_fchownat,
    __NR_fchown,
    __NR_openat,
    __NR_close,
    __NR_vhangup,
    __NR_pipe2,
    __NR_quotactl,
    __NR_getdents64,
    __NR3264_lseek,
    __NR_read,
    __NR_write,
    __NR_readv,
    __NR_writev,
    __NR_pread64,
    __NR_pwrite64,
    __NR_preadv,
    __NR_pwritev,
    __NR3264_sendfile,
    __NR_pselect6,
    __NR_ppoll,
    __NR_signalfd4,
    __NR_vmsplice,
    __NR_splice,
    __NR_tee,
    __NR_readlinkat,
    __NR3264_fstatat,
    __NR3264_fstat,
    __NR_sync,
    __NR_fsync,
    __NR_fdatasync,
    __NR_sync_file_range2,
    __NR_timerfd_create,
    __NR_timerfd_settime,
    __NR_timerfd_gettime,
    __NR_utimensat,
    __NR_acct,
    __NR_capget,
    __NR_capset,
    __NR_personality,
    __NR_exit,
    __NR_exit_group,
    __NR_waitid,
    __NR_set_tid_address,
    __NR_unshare,
    __NR_futex,
    __NR_set_robust_list,
    __NR_get_robust_list,
    __NR_nanosleep,
    __NR_getitimer,
    __NR_setitimer,
    __NR_kexec_load,
    __NR_init_module,
    __NR_delete_module,
    __NR_timer_create,
    __NR_timer_gettime,
    __NR_timer_getoverrun,
    __NR_timer_settime,
    __NR_timer_delete,
    __NR_clock_settime,
    __NR_clock_gettime,
    __NR_clock_getres,
    __NR_clock_nanosleep,
    __NR_syslog,
    __NR_ptrace,
    __NR_sched_setparam,
    __NR_sched_setscheduler,
    __NR_sched_getscheduler,
    __NR_sched_getparam,
    __NR_sched_setaffinity,
    __NR_sched_getaffinity,
    __NR_sched_yield,
    __NR_sched_get_priority_max,
    __NR_sched_get_priority_min,
    __NR_sched_rr_get_interval,
    __NR_restart_syscall,
    __NR_kill,
    __NR_tkill,
    __NR_tgkill,
    __NR_sigaltstack,
    __NR_rt_sigsuspend,
    __NR_rt_sigaction,
    __NR_rt_sigprocmask,
    __NR_rt_sigpending,
    __NR_rt_sigtimedwait,
    __NR_rt_sigqueueinfo,
    __NR_rt_sigreturn,
    __NR_setpriority,
    __NR_getpriority,
    __NR_reboot,
    __NR_setregid,
    __NR_setgid,
    __NR_setreuid,
    __NR_setuid,
    __NR_setresuid,
    __NR_getresuid,
    __NR_setresgid,
    __NR_getresgid,
    __NR_setfsuid,
    __NR_setfsgid,
    __NR_times,
    __NR_setpgid,
    __NR_getpgid,
    __NR_getsid,
    __NR_setsid,
    __NR_getgroups,
    __NR_setgroups,
    __NR_uname,
    __NR_sethostname,
    __NR_setdomainname,
    __NR_getrlimit,
    __NR_setrlimit,
    __NR_getrusage,
    __NR_umask,
    __NR_prctl,
    __NR_getcpu,
    __NR_gettimeofday,
    __NR_settimeofday,
    __NR_adjtimex,
    __NR_getpid,
    __NR_getppid,
    __NR_getuid,
    __NR_geteuid,
    __NR_getgid,
    __NR_getegid,
    __NR_gettid,
    __NR_sysinfo,
    __NR_mq_open,
    __NR_mq_unlink,
    __NR_mq_timedsend,
    __NR_mq_timedreceive,
    __NR_mq_notify,
    __NR_mq_getsetattr,
    __NR_msgget,
    __NR_msgctl,
    __NR_msgrcv,
    __NR_msgsnd,
    __NR_semget,
    __NR_semctl,
    __NR_semtimedop,
    __NR_semop,
    __NR_shmget,
    __NR_shmctl,
    __NR_shmat,
    __NR_shmdt,
    __NR_socket,
    __NR_socketpair,
    __NR_bind,
    __NR_listen,
    __NR_accept,
    __NR_connect,
    __NR_getsockname,
    __NR_getpeername,
    __NR_sendto,
    __NR_recvfrom,
    __NR_setsockopt,
    __NR_getsockopt,
    __NR_shutdown,
    __NR_sendmsg,
    __NR_recvmsg,
    __NR_readahead,
    __NR_brk,
    __NR_munmap,
    __NR_mremap,
    __NR_add_key,
    __NR_request_key,
    __NR_keyctl,
    __NR_clone,
    __NR_execve,
    __NR3264_mmap,
    __NR3264_fadvise64,
    __NR_swapon,
    __NR_swapoff,
    __NR_mprotect,
    __NR_msync,
    __NR_mlock,
    __NR_munlock,
    __NR_mlockall,
    __NR_munlockall,
    __NR_mincore,
    __NR_madvise,
    __NR_remap_file_pages,
    __NR_mbind,
    __NR_get_mempolicy,
    __NR_set_mempolicy,
    __NR_migrate_pages,
    __NR_move_pages,
    __NR_rt_tgsigqueueinfo,
    __NR_perf_event_open,
    __NR_accept4,
    __NR_recvmmsg,
    __NR_arch_specific_syscall,
    __NR_wait4,
    __NR_prlimit64,
    __NR_fanotify_init,
    __NR_fanotify_mark,
    __NR_name_to_handle_at,
    __NR_open_by_handle_at,
    __NR_clock_adjtime,
    __NR_syncfs,
    __NR_setns,
    __NR_sendmmsg,
    __NR_process_vm_readv,
    __NR_process_vm_writev,
    __NR_kcmp,
    __NR_finit_module,
    __NR_sched_setattr,
    __NR_sched_getattr,
    __NR_renameat2,
    __NR_seccomp,
    __NR_getrandom,
    __NR_memfd_create,
    __NR_bpf,
    __NR_execveat,
    __NR_userfaultfd,
    __NR_membarrier,
    __NR_mlock2,
    __NR_copy_file_range,
    __NR_preadv2,
    __NR_pwritev2,
    __NR_pkey_mprotect,
    __NR_pkey_alloc,
    __NR_pkey_free,
    __NR_statx,
    __NR_syscalls,
    __NR_open,
    __NR_link,
    __NR_unlink,
    __NR_mknod,
    __NR_chmod,
    __NR_chown,
    __NR_mkdir,
    __NR_rmdir,
    __NR_lchown,
    __NR_access,
    __NR_rename,
    __NR_readlink,
    __NR_symlink,
    __NR_utimes,
    __NR3264_stat,
    __NR3264_lstat,
    __NR_pipe,
    __NR_dup2,
    __NR_epoll_create,
    __NR_inotify_init,
    __NR_eventfd,
    __NR_signalfd,
    __NR_sendfile,
    __NR_ftruncate,
    __NR_truncate,
    __NR_stat,
    __NR_lstat,
    __NR_fstat,
    __NR_fcntl,
    __NR_fadvise64,
    __NR_newfstatat,
    __NR_fstatfs,
    __NR_statfs,
    __NR_lseek,
    __NR_mmap,
    __NR_alarm,
    __NR_getpgrp,
    __NR_pause,
    __NR_time,
    __NR_utime,
    __NR_creat,
    __NR_getdents,
    __NR_futimesat,
    __NR_select,
    __NR_poll,
    __NR_epoll_wait,
    __NR_ustat,
    __NR_vfork,
    __NR_oldwait4,
    __NR_recv,
    __NR_send,
    __NR_bdflush,
    __NR_umount,
    __NR_uselib,
    __NR__sysctl,
    __NR_fork,
    Unknown,
}

/// The numeric identifier of `s` in the kernel ABI; `Unknown` maps to the
/// reserved `UNKNOWN_SYSCALL_NUMBER`.
pub open spec fn spec_syscall_number(s: Syscalls) -> u64 {
    match s {
        Syscalls::__NR_io_setup => 0,
        Syscalls::__NR_io_destroy => 1,
        Syscalls::__NR_io_submit => 2,
        Syscalls::__NR_io_cancel => 3,
        Syscalls::__NR_io_getevents => 4,
        Syscalls::__NR_setxattr => 5,
        Syscalls::__NR_lsetxattr => 6,
        Syscalls::__NR_fsetxattr => 7,
        Syscalls::__NR_getxattr => 8,
        Syscalls::__NR_lgetxattr => 9,
        Syscalls::__NR_fgetxattr => 10,
        Syscalls::__NR_listxattr => 11,
        Syscalls::__NR_llistxattr => 12,
        Syscalls::__NR_flistxattr => 13,
        Syscalls::__NR_removexattr => 14,
        Syscalls::__NR_lremovexattr => 15,
        Syscalls::__NR_fremovexattr => 16,
        Syscalls::__NR_getcwd => 17,
        Syscalls::__NR_lookup_dcookie => 18,
        Syscalls::__NR_eventfd2 => 19,
        Syscalls::__NR_epoll_create1 => 20,
        Syscalls::__NR_epoll_ctl => 21,
        Syscalls::__NR_epoll_pwait => 22,
        Syscalls::__NR_dup => 23,
        Syscalls::__NR_dup3 => 24,
        Syscalls::__NR3264_fcntl => 25,
        Syscalls::__NR_inotify_init1 => 26,
        Syscalls::__NR_inotify_add_watch => 27,
        Syscalls::__NR_inotify_rm_watch => 28,
        Syscalls::__NR_ioctl => 29,
        Syscalls::__NR_ioprio_set => 30,
        Syscalls::__NR_ioprio_get => 31,
        Syscalls::__NR_flock => 32,
        Syscalls::__NR_mknodat => 33,
        Syscalls::__NR_mkdirat => 34,
        Syscalls::__NR_unlinkat => 35,
        Syscalls::__NR_symlinkat => 36,
        Syscalls::__NR_linkat => 37,
        Syscalls::__NR_renameat => 38,
        Syscalls::__NR_umount2 => 39,
        Syscalls::__NR_mount => 40,
        Syscalls::__NR_pivot_root => 41,
        Syscalls::__NR_nfsservctl => 42,
        Syscalls::__NR3264_statfs => 43,
        Syscalls::__NR3264_fstatfs => 44,
        Syscalls::__NR3264_truncate => 45,
        Syscalls::__NR3264_ftruncate => 46,
        Syscalls::__NR_fallocate => 47,
        Syscalls::__NR_faccessat => 48,
        Syscalls::__NR_chdir => 49,
        Syscalls::__NR_fchdir => 50,
        Syscalls::__NR_chroot => 51,
        Syscalls::__NR_fchmod => 52,
        Syscalls::__NR_fchmodat => 53,
        Syscalls::__NR_fchownat => 54,
        Syscalls::__NR_fchown => 55,
        Syscalls::__NR_openat => 56,
        Syscalls::__NR_close => 57,
        Syscalls::__NR_vhangup => 58,
        Syscalls::__NR_pipe2 => 59,
        Syscalls::__NR_quotactl => 60,
        Syscalls::__NR_getdents64 => 61,
        Syscalls::__NR3264_lseek => 62,
        Syscalls::__NR_read => 63,
        Syscalls::__NR_write => 64,
        Syscalls::__NR_readv => 65,
        Syscalls::__NR_writev => 66,
        Syscalls::__NR_pread64 => 67,
        Syscalls::__NR_pwrite64 => 68,
        Syscalls::__NR_preadv => 69,
        Syscalls::__NR_pwritev => 70,
        Syscalls::__NR3264_sendfile => 71,
        Syscalls::__NR_pselect6 => 72,
        Syscalls::__NR_ppoll => 73,
        Syscalls::__NR_signalfd4 => 74,
        Syscalls::__NR_vmsplice => 75,
        Syscalls::__NR_splice => 76,
        Syscalls::__NR_tee => 77,
        Syscalls::__NR_readlinkat => 78,
        Syscalls::__NR3264_fstatat => 79,
        Syscalls::__NR3264_fstat => 80,
        Syscalls::__NR_sync => 81,
        Syscalls::__NR_fsync => 82,
        Syscalls::__NR_fdatasync => 83,
        Syscalls::__NR_sync_file_range2 => 84,
        Syscalls::__NR_timerfd_create => 85,
        Syscalls::__NR_timerfd_settime => 86,
        Syscalls::__NR_timerfd_gettime => 87,
        Syscalls::__NR_utimensat => 88,
        Syscalls::__NR_acct => 89,
        Syscalls::__NR_capget => 90,
        Syscalls::__NR_capset => 91,
        Syscalls::__NR_personality => 92,
        Syscalls::__NR_exit => 93,
        Syscalls::__NR_exit_group => 94,
        Syscalls::__NR_waitid => 95,
        Syscalls::__NR_set_tid_address => 96,
        Syscalls::__NR_unshare => 97,
        Syscalls::__NR_futex => 98,
        Syscalls::__NR_set_robust_list => 99,
        Syscalls::__NR_get_robust_list => 100,
        Syscalls::__NR_nanosleep => 101,
        Syscalls::__NR_getitimer => 102,
        Syscalls::__NR_setitimer => 103,
        Syscalls::__NR_kexec_load => 104,
        Syscalls::__NR_init_module => 105,
        Syscalls::__NR_delete_module => 106,
        Syscalls::__NR_timer_create => 107,
        Syscalls::__NR_timer_gettime => 108,
        Syscalls::__NR_timer_getoverrun => 109,
        Syscalls::__NR_timer_settime => 110,
        Syscalls::__NR_timer_delete => 111,
        Syscalls::__NR_clock_settime => 112,
        Syscalls::__NR_clock_gettime => 113,
        Syscalls::__NR_clock_getres => 114,
        Syscalls::__NR_clock_nanosleep => 115,
        Syscalls::__NR_syslog => 116,
        Syscalls::__NR_ptrace => 117,
        Syscalls::__NR_sched_setparam => 118,
        Syscalls::__NR_sched_setscheduler => 119,
        Syscalls::__NR_sched_getscheduler => 120,
        Syscalls::__NR_sched_getparam => 121,
        Syscalls::__NR_sched_setaffinity => 122,
        Syscalls::__NR_sched_getaffinity => 123,
        Syscalls::__NR_sched_yield => 124,
        Syscalls::__NR_sched_get_priority_max => 125,
        Syscalls::__NR_sched_get_priority_min => 126,
        Syscalls::__NR_sched_rr_get_interval => 127,
        Syscalls::__NR_restart_syscall => 128,
        Syscalls::__NR_kill => 129,
        Syscalls::__NR_tkill => 130,
        Syscalls::__NR_tgkill => 131,
        Syscalls::__NR_sigaltstack => 132,
        Syscalls::__NR_rt_sigsuspend => 133,
        Syscalls::__NR_rt_sigaction => 134,
        Syscalls::__NR_rt_sigprocmask => 135,
        Syscalls::__NR_rt_sigpending => 136,
        Syscalls::__NR_rt_sigtimedwait => 137,
        Syscalls::__NR_rt_sigqueueinfo => 138,
        Syscalls::__NR_rt_sigreturn => 139,
        Syscalls::__NR_setpriority => 140,
        Syscalls::__NR_getpriority => 141,
        Syscalls::__NR_reboot => 142,
        Syscalls::__NR_setregid => 143,
        Syscalls::__NR_setgid => 144,
        Syscalls::__NR_setreuid => 145,
        Syscalls::__NR_setuid => 146,
        Syscalls::__NR_setresuid => 147,
        Syscalls::__NR_getresuid => 148,
        Syscalls::__NR_setresgid => 149,
        Syscalls::__NR_getresgid => 150,
        Syscalls::__NR_setfsuid => 151,
        Syscalls::__NR_setfsgid => 152,
        Syscalls::__NR_times => 153,
        Syscalls::__NR_setpgid => 154,
        Syscalls::__NR_getpgid => 155,
        Syscalls::__NR_getsid => 156,
        Syscalls::__NR_setsid => 157,
        Syscalls::__NR_getgroups => 158,
        Syscalls::__NR_setgroups => 159,
        Syscalls::__NR_uname => 160,
        Syscalls::__NR_sethostname => 161,
        Syscalls::__NR_setdomainname => 162,
        Syscalls::__NR_getrlimit => 163,
        Syscalls::__NR_setrlimit => 164,
        Syscalls::__NR_getrusage => 165,
        Syscalls::__NR_umask => 166,
        Syscalls::__NR_prctl => 167,
        Syscalls::__NR_getcpu => 168,
        Syscalls::__NR_gettimeofday => 169,
        Syscalls::__NR_settimeofday => 170,
        Syscalls::__NR_adjtimex => 171,
        Syscalls::__NR_getpid => 172,
        Syscalls::__NR_getppid => 173,
        Syscalls::__NR_getuid => 174,
        Syscalls::__NR_geteuid => 175,
        Syscalls::__NR_getgid => 176,
        Syscalls::__NR_getegid => 177,
        Syscalls::__NR_gettid => 178,
        Syscalls::__NR_sysinfo => 179,
        Syscalls::__NR_mq_open => 180,
        Syscalls::__NR_mq_unlink => 181,
        Syscalls::__NR_mq_timedsend => 182,
        Syscalls::__NR_mq_timedreceive => 183,
        Syscalls::__NR_mq_notify => 184,
        Syscalls::__NR_mq_getsetattr => 185,
        Syscalls::__NR_msgget => 186,
        Syscalls::__NR_msgctl => 187,
        Syscalls::__NR_msgrcv => 188,
        Syscalls::__NR_msgsnd => 189,
        Syscalls::__NR_semget => 190,
        Syscalls::__NR_semctl => 191,
        Syscalls::__NR_semtimedop => 192,
        Syscalls::__NR_semop => 193,
        Syscalls::__NR_shmget => 194,
        Syscalls::__NR_shmctl => 195,
        Syscalls::__NR_shmat => 196,
        Syscalls::__NR_shmdt => 197,
        Syscalls::__NR_socket => 198,
        Syscalls::__NR_socketpair => 199,
        Syscalls::__NR_bind => 200,
        Syscalls::__NR_listen => 201,
        Syscalls::__NR_accept => 202,
        Syscalls::__NR_connect => 203,
        Syscalls::__NR_getsockname => 204,
        Syscalls::__NR_getpeername => 205,
        Syscalls::__NR_sendto => 206,
        Syscalls::__NR_recvfrom => 207,
        Syscalls::__NR_setsockopt => 208,
        Syscalls::__NR_getsockopt => 209,
        Syscalls::__NR_shutdown => 210,
        Syscalls::__NR_sendmsg => 211,
        Syscalls::__NR_recvmsg => 212,
        Syscalls::__NR_readahead => 213,
        Syscalls::__NR_brk => 214,
        Syscalls::__NR_munmap => 215,
        Syscalls::__NR_mremap => 216,
        Syscalls::__NR_add_key => 217,
        Syscalls::__NR_request_key => 218,
        Syscalls::__NR_keyctl => 219,
        Syscalls::__NR_clone => 220,
        Syscalls::__NR_execve => 221,
        Syscalls::__NR3264_mmap => 222,
        Syscalls::__NR3264_fadvise64 => 223,
        Syscalls::__NR_swapon => 224,
        Syscalls::__NR_swapoff => 225,
        Syscalls::__NR_mprotect => 226,
        Syscalls::__NR_msync => 227,
        Syscalls::__NR_mlock => 228,
        Syscalls::__NR_munlock => 229,
        Syscalls::__NR_mlockall => 230,
        Syscalls::__NR_munlockall => 231,
        Syscalls::__NR_mincore => 232,
        Syscalls::__NR_madvise => 233,
        Syscalls::__NR_remap_file_pages => 234,
        Syscalls::__NR_mbind => 235,
        Syscalls::__NR_get_mempolicy => 236,
        Syscalls::__NR_set_mempolicy => 237,
        Syscalls::__NR_migrate_pages => 238,
        Syscalls::__NR_move_pages => 239,
        Syscalls::__NR_rt_tgsigqueueinfo => 240,
        Syscalls::__NR_perf_event_open => 241,
        Syscalls::__NR_accept4 => 242,
        Syscalls::__NR_recvmmsg => 243,
        Syscalls::__NR_arch_specific_syscall => 244,
        Syscalls::__NR_wait4 => 260,
        Syscalls::__NR_prlimit64 => 261,
        Syscalls::__NR_fanotify_init => 262,
        Syscalls::__NR_fanotify_mark => 263,
        Syscalls::__NR_name_to_handle_at => 264,
        Syscalls::__NR_open_by_handle_at => 265,
        Syscalls::__NR_clock_adjtime => 266,
        Syscalls::__NR_syncfs => 267,
        Syscalls::__NR_setns => 268,
        Syscalls::__NR_sendmmsg => 269,
        Syscalls::__NR_process_vm_readv => 270,
        Syscalls::__NR_process_vm_writev => 271,
        Syscalls::__NR_kcmp => 272,
        Syscalls::__NR_finit_module => 273,
        Syscalls::__NR_sched_setattr => 274,
        Syscalls::__NR_sched_getattr => 275,
        Syscalls::__NR_renameat2 => 276,
        Syscalls::__NR_seccomp => 277,
        Syscalls::__NR_getrandom => 278,
        Syscalls::__NR_memfd_create => 279,
        Syscalls::__NR_bpf => 280,
        Syscalls::__NR_execveat => 281,
        Syscalls::__NR_userfaultfd => 282,
        Syscalls::__NR_membarrier => 283,
        Syscalls::__NR_mlock2 => 284,
        Syscalls::__NR_copy_file_range => 285,
        Syscalls::__NR_preadv2 => 286,
        Syscalls::__NR_pwritev2 => 287,
        Syscalls::__NR_pkey_mprotect => 288,
        Syscalls::__NR_pkey_alloc => 289,
        Syscalls::__NR_pkey_free => 290,
        Syscalls::__NR_statx => 291,
        Syscalls::__NR_syscalls => 292,
        Syscalls::__NR_open => 1024,
        Syscalls::__NR_link => 1025,
        Syscalls::__NR_unlink => 1026,
        Syscalls::__NR_mknod => 1027,
        Syscalls::__NR_chmod => 1028,
        Syscalls::__NR_chown => 1029,
        Syscalls::__NR_mkdir => 1030,
        Syscalls::__NR_rmdir => 1031,
        Syscalls::__NR_lchown => 1032,
        Syscalls::__NR_access => 1033,
        Syscalls::__NR_rename => 1034,
        Syscalls::__NR_readlink => 1035,
        Syscalls::__NR_symlink => 1036,
        Syscalls::__NR_utimes => 1037,
        Syscalls::__NR3264_stat => 1038,
        Syscalls::__NR3264_lstat => 1039,
        Syscalls::__NR_pipe => 1040,
        Syscalls::__NR_dup2 => 1041,
        Syscalls::__NR_epoll_create => 1042,
        Syscalls::__NR_inotify_init => 1043,
        Syscalls::__NR_eventfd => 1044,
        Syscalls::__NR_signalfd => 1045,
        Syscalls::__NR_sendfile => 1046,
        Syscalls::__NR_ftruncate => 1047,
        Syscalls::__NR_truncate => 1048,
        Syscalls::__NR_stat => 1049,
        Syscalls::__NR_lstat => 1050,
        Syscalls::__NR_fstat => 1051,
        Syscalls::__NR_fcntl => 1052,
        Syscalls::__NR_fadvise64 => 1053,
        Syscalls::__NR_newfstatat => 1054,
        Syscalls::__NR_fstatfs => 1055,
        Syscalls::__NR_statfs => 1056,
        Syscalls::__NR_lseek => 1057,
        Syscalls::__NR_mmap => 1058,
        Syscalls::__NR_alarm => 1059,
        Syscalls::__NR_getpgrp => 1060,
        Syscalls::__NR_pause => 1061,
        Syscalls::__NR_time => 1062,
        Syscalls::__NR_utime => 1063,
        Syscalls::__NR_creat => 1064,
        Syscalls::__NR_getdents => 1065,
        Syscalls::__NR_futimesat => 1066,
        Syscalls::__NR_select => 1067,
        Syscalls::__NR_poll => 1068,
        Syscalls::__NR_epoll_wait => 1069,
        Syscalls::__NR_ustat => 1070,
        Syscalls::__NR_vfork => 1071,
        Syscalls::__NR_oldwait4 => 1072,
        Syscalls::__NR_recv => 1073,
        Syscalls::__NR_send => 1074,
        Syscalls::__NR_bdflush => 1075,
        Syscalls::__NR_umount => 1076,
        Syscalls::__NR_uselib => 1077,
        Syscalls::__NR__sysctl => 1078,
        Syscalls::__NR_fork => 1079,
        Syscalls::Unknown => UNKNOWN_SYSCALL_NUMBER,
    }
}

/// The canonical identifier named by `nr`, or `Unknown` where `nr` is no
/// canonical syscall number.
pub open spec fn spec_syscall_from_number(nr: u64) -> Syscalls {
    match nr {
        0u64 => Syscalls::__NR_io_setup,
        1u64 => Syscalls::__NR_io_destroy,
        2u64 => Syscalls::__NR_io_submit,
        3u64 => Syscalls::__NR_io_cancel,
        4u64 => Syscalls::__NR_io_getevents,
        5u64 => Syscalls::__NR_setxattr,
        6u64 => Syscalls::__NR_lsetxattr,
        7u64 => Syscalls::__NR_fsetxattr,
        8u64 => Syscalls::__NR_getxattr,
        9u64 => Syscalls::__NR_lgetxattr,
        10u64 => Syscalls::__NR_fgetxattr,
        11u64 => Syscalls::__NR_listxattr,
        12u64 => Syscalls::__NR_llistxattr,
        13u64 => Syscalls::__NR_flistxattr,
        14u64 => Syscalls::__NR_removexattr,
        15u64 => Syscalls::__NR_lremovexattr,
        16u64 => Syscalls::__NR_fremovexattr,
        17u64 => Syscalls::__NR_getcwd,
        18u64 => Syscalls::__NR_lookup_dcookie,
        19u64 => Syscalls::__NR_eventfd2,
        20u64 => Syscalls::__NR_epoll_create1,
        21u64 => Syscalls::__NR_epoll_ctl,
        22u64 => Syscalls::__NR_epoll_pwait,
        23u64 => Syscalls::__NR_dup,
        24u64 => Syscalls::__NR_dup3,
        25u64 => Syscalls::__NR3264_fcntl,
        26u64 => Syscalls::__NR_inotify_init1,
        27u64 => Syscalls::__NR_inotify_add_watch,
        28u64 => Syscalls::__NR_inotify_rm_watch,
        29u64 => Syscalls::__NR_ioctl,
        30u64 => Syscalls::__NR_ioprio_set,
        31u64 => Syscalls::__NR_ioprio_get,
        32u64 => Syscalls::__NR_flock,
        33u64 => Syscalls::__NR_mknodat,
        34u64 => Syscalls::__NR_mkdirat,
        35u64 => Syscalls::__NR_unlinkat,
        36u64 => Syscalls::__NR_symlinkat,
        37u64 => Syscalls::__NR_linkat,
        38u64 => Syscalls::__NR_renameat,
        39u64 => Syscalls::__NR_umount2,
        40u64 => Syscalls::__NR_mount,
        41u64 => Syscalls::__NR_pivot_root,
        42u64 => Syscalls::__NR_nfsservctl,
        43u64 => Syscalls::__NR3264_statfs,
        44u64 => Syscalls::__NR3264_fstatfs,
        45u64 => Syscalls::__NR3264_truncate,
        46u64 => Syscalls::__NR3264_ftruncate,
        47u64 => Syscalls::__NR_fallocate,
        48u64 => Syscalls::__NR_faccessat,
        49u64 => Syscalls::__NR_chdir,
        50u64 => Syscalls::__NR_fchdir,
        51u64 => Syscalls::__NR_chroot,
        52u64 => Syscalls::__NR_fchmod,
        53u64 => Syscalls::__NR_fchmodat,
        54u64 => Syscalls::__NR_fchownat,
        55u64 => Syscalls::__NR_fchown,
        56u64 => Syscalls::__NR_openat,
        57u64 => Syscalls::__NR_close,
        58u64 => Syscalls::__NR_vhangup,
        59u64 => Syscalls::__NR_pipe2,
        60u64 => Syscalls::__NR_quotactl,
        61u64 => Syscalls::__NR_getdents64,
        62u64 => Syscalls::__NR3264_lseek,
        63u64 => Syscalls::__NR_read,
        64u64 => Syscalls::__NR_write,
        65u64 => Syscalls::__NR_readv,
        66u64 => Syscalls::__NR_writev,
        67u64 => Syscalls::__NR_pread64,
        68u64 => Syscalls::__NR_pwrite64,
        69u64 => Syscalls::__NR_preadv,
        70u64 => Syscalls::__NR_pwritev,
        71u64 => Syscalls::__NR3264_sendfile,
        72u64 => Syscalls::__NR_pselect6,
        73u64 => Syscalls::__NR_ppoll,
        74u64 => Syscalls::__NR_signalfd4,
        75u64 => Syscalls::__NR_vmsplice,
        76u64 => Syscalls::__NR_splice,
        77u64 => Syscalls::__NR_tee,
        78u64 => Syscalls::__NR_readlinkat,
        79u64 => Syscalls::__NR3264_fstatat,
        80u64 => Syscalls::__NR3264_fstat,
        81u64 => Syscalls::__NR_sync,
        82u64 => Syscalls::__NR_fsync,
        83u64 => Syscalls::__NR_fdatasync,
        84u64 => Syscalls::__NR_sync_file_range2,
        85u64 => Syscalls::__NR_timerfd_create,
        86u64 => Syscalls::__NR_timerfd_settime,
        87u64 => Syscalls::__NR_timerfd_gettime,
        88u64 => Syscalls::__NR_utimensat,
        89u64 => Syscalls::__NR_acct,
        90u64 => Syscalls::__NR_capget,
        91u64 => Syscalls::__NR_capset,
        92u64 => Syscalls::__NR_personality,
        93u64 => Syscalls::__NR_exit,
        94u64 => Syscalls::__NR_exit_group,
        95u64 => Syscalls::__NR_waitid,
        96u64 => Syscalls::__NR_set_tid_address,
        97u64 => Syscalls::__NR_unshare,
        98u64 => Syscalls::__NR_futex,
        99u64 => Syscalls::__NR_set_robust_list,
        100u64 => Syscalls::__NR_get_robust_list,
        101u64 => Syscalls::__NR_nanosleep,
        102u64 => Syscalls::__NR_getitimer,
        103u64 => Syscalls::__NR_setitimer,
        104u64 => Syscalls::__NR_kexec_load,
        105u64 => Syscalls::__NR_init_module,
        106u64 => Syscalls::__NR_delete_module,
        107u64 => Syscalls::__NR_timer_create,
        108u64 => Syscalls::__NR_timer_gettime,
        109u64 => Syscalls::__NR_timer_getoverrun,
        110u64 => Syscalls::__NR_timer_settime,
        111u64 => Syscalls::__NR_timer_delete,
        112u64 => Syscalls::__NR_clock_settime,
        113u64 => Syscalls::__NR_clock_gettime,
        114u64 => Syscalls::__NR_clock_getres,
        115u64 => Syscalls::__NR_clock_nanosleep,
        116u64 => Syscalls::__NR_syslog,
        117u64 => Syscalls::__NR_ptrace,
        118u64 => Syscalls::__NR_sched_setparam,
        119u64 => Syscalls::__NR_sched_setscheduler,
        120u64 => Syscalls::__NR_sched_getscheduler,
        121u64 => Syscalls::__NR_sched_getparam,
        122u64 => Syscalls::__NR_sched_setaffinity,
        123u64 => Syscalls::__NR_sched_getaffinity,
        124u64 => Syscalls::__NR_sched_yield,
        125u64 => Syscalls::__NR_sched_get_priority_max,
        126u64 => Syscalls::__NR_sched_get_priority_min,
        127u64 => Syscalls::__NR_sched_rr_get_interval,
        128u64 => Syscalls::__NR_restart_syscall,
        129u64 => Syscalls::__NR_kill,
        130u64 => Syscalls::__NR_tkill,
        131u64 => Syscalls::__NR_tgkill,
        132u64 => Syscalls::__NR_sigaltstack,
        133u64 => Syscalls::__NR_rt_sigsuspend,
        134u64 => Syscalls::__NR_rt_sigaction,
        135u64 => Syscalls::__NR_rt_sigprocmask,
        136u64 => Syscalls::__NR_rt_sigpending,
        137u64 => Syscalls::__NR_rt_sigtimedwait,
        138u64 => Syscalls::__NR_rt_sigqueueinfo,
        139u64 => Syscalls::__NR_rt_sigreturn,
        140u64 => Syscalls::__NR_setpriority,
        141u64 => Syscalls::__NR_getpriority,
        142u64 => Syscalls::__NR_reboot,
        143u64 => Syscalls::__NR_setregid,
        144u64 => Syscalls::__NR_setgid,
        145u64 => Syscalls::__NR_setreuid,
        146u64 => Syscalls::__NR_setuid,
        147u64 => Syscalls::__NR_setresuid,
        148u64 => Syscalls::__NR_getresuid,
        149u64 => Syscalls::__NR_setresgid,
        150u64 => Syscalls::__NR_getresgid,
        151u64 => Syscalls::__NR_setfsuid,
        152u64 => Syscalls::__NR_setfsgid,
        153u64 => Syscalls::__NR_times,
        154u64 => Syscalls::__NR_setpgid,
        155u64 => Syscalls::__NR_getpgid,
        156u64 => Syscalls::__NR_getsid,
        157u64 => Syscalls::__NR_setsid,
        158u64 => Syscalls::__NR_getgroups,
        159u64 => Syscalls::__NR_setgroups,
        160u64 => Syscalls::__NR_uname,
        161u64 => Syscalls::__NR_sethostname,
        162u64 => Syscalls::__NR_setdomainname,
        163u64 => Syscalls::__NR_getrlimit,
        164u64 => Syscalls::__NR_setrlimit,
        165u64 => Syscalls::__NR_getrusage,
        166u64 => Syscalls::__NR_umask,
        167u64 => Syscalls::__NR_prctl,
        168u64 => Syscalls::__NR_getcpu,
        169u64 => Syscalls::__NR_gettimeofday,
        170u64 => Syscalls::__NR_settimeofday,
        171u64 => Syscalls::__NR_adjtimex,
        172u64 => Syscalls::__NR_getpid,
        173u64 => Syscalls::__NR_getppid,
        174u64 => Syscalls::__NR_getuid,
        175u64 => Syscalls::__NR_geteuid,
        176u64 => Syscalls::__NR_getgid,
        177u64 => Syscalls::__NR_getegid,
        178u64 => Syscalls::__NR_gettid,
        179u64 => Syscalls::__NR_sysinfo,
        180u64 => Syscalls::__NR_mq_open,
        181u64 => Syscalls::__NR_mq_unlink,
        182u64 => Syscalls::__NR_mq_timedsend,
        183u64 => Syscalls::__NR_mq_timedreceive,
        184u64 => Syscalls::__NR_mq_notify,
        185u64 => Syscalls::__NR_mq_getsetattr,
        186u64 => Syscalls::__NR_msgget,
        187u64 => Syscalls::__NR_msgctl,
        188u64 => Syscalls::__NR_msgrcv,
        189u64 => Syscalls::__NR_msgsnd,
        190u64 => Syscalls::__NR_semget,
        191u64 => Syscalls::__NR_semctl,
        192u64 => Syscalls::__NR_semtimedop,
        193u64 => Syscalls::__NR_semop,
        194u64 => Syscalls::__NR_shmget,
        195u64 => Syscalls::__NR_shmctl,
        196u64 => Syscalls::__NR_shmat,
        197u64 => Syscalls::__NR_shmdt,
        198u64 => Syscalls::__NR_socket,
        199u64 => Syscalls::__NR_socketpair,
        200u64 => Syscalls::__NR_bind,
        201u64 => Syscalls::__NR_listen,
        202u64 => Syscalls::__NR_accept,
        203u64 => Syscalls::__NR_connect,
        204u64 => Syscalls::__NR_getsockname,
        205u64 => Syscalls::__NR_getpeername,
        206u64 => Syscalls::__NR_sendto,
        207u64 => Syscalls::__NR_recvfrom,
        208u64 => Syscalls::__NR_setsockopt,
        209u64 => Syscalls::__NR_getsockopt,
        210u64 => Syscalls::__NR_shutdown,
        211u64 => Syscalls::__NR_sendmsg,
        212u64 => Syscalls::__NR_recvmsg,
        213u64 => Syscalls::__NR_readahead,
        214u64 => Syscalls::__NR_brk,
        215u64 => Syscalls::__NR_munmap,
        216u64 => Syscalls::__NR_mremap,
        217u64 => Syscalls::__NR_add_key,
        218u64 => Syscalls::__NR_request_key,
        219u64 => Syscalls::__NR_keyctl,
        220u64 => Syscalls::__NR_clone,
        221u64 => Syscalls::__NR_execve,
        222u64 => Syscalls::__NR3264_mmap,
        223u64 => Syscalls::__NR3264_fadvise64,
        224u64 => Syscalls::__NR_swapon,
        225u64 => Syscalls::__NR_swapoff,
        226u64 => Syscalls::__NR_mprotect,
        227u64 => Syscalls::__NR_msync,
        228u64 => Syscalls::__NR_mlock,
        229u64 => Syscalls::__NR_munlock,
        230u64 => Syscalls::__NR_mlockall,
        231u64 => Syscalls::__NR_munlockall,
        232u64 => Syscalls::__NR_mincore,
        233u64 => Syscalls::__NR_madvise,
        234u64 => Syscalls::__NR_remap_file_pages,
        235u64 => Syscalls::__NR_mbind,
        236u64 => Syscalls::__NR_get_mempolicy,
        237u64 => Syscalls::__NR_set_mempolicy,
        238u64 => Syscalls::__NR_migrate_pages,
        239u64 => Syscalls::__NR_move_pages,
        240u64 => Syscalls::__NR_rt_tgsigqueueinfo,
        241u64 => Syscalls::__NR_perf_event_open,
        242u64 => Syscalls::__NR_accept4,
        243u64 => Syscalls::__NR_recvmmsg,
        244u64 => Syscalls::__NR_arch_specific_syscall,
        260u64 => Syscalls::__NR_wait4,
        261u64 => Syscalls::__NR_prlimit64,
        262u64 => Syscalls::__NR_fanotify_init,
        263u64 => Syscalls::__NR_fanotify_mark,
        264u64 => Syscalls::__NR_name_to_handle_at,
        265u64 => Syscalls::__NR_open_by_handle_at,
        266u64 => Syscalls::__NR_clock_adjtime,
        267u64 => Syscalls::__NR_syncfs,
        268u64 => Syscalls::__NR_setns,
        269u64 => Syscalls::__NR_sendmmsg,
        270u64 => Syscalls::__NR_process_vm_readv,
        271u64 => Syscalls::__NR_process_vm_writev,
        272u64 => Syscalls::__NR_kcmp,
        273u64 => Syscalls::__NR_finit_module,
        274u64 => Syscalls::__NR_sched_setattr,
        275u64 => Syscalls::__NR_sched_getattr,
        276u64 => Syscalls::__NR_renameat2,
        277u64 => Syscalls::__NR_seccomp,
        278u64 => Syscalls::__NR_getrandom,
        279u64 => Syscalls::__NR_memfd_create,
        280u64 => Syscalls::__NR_bpf,
        281u64 => Syscalls::__NR_execveat,
        282u64 => Syscalls::__NR_userfaultfd,
        283u64 => Syscalls::__NR_membarrier,
        284u64 => Syscalls::__NR_mlock2,
        285u64 => Syscalls::__NR_copy_file_range,
        286u64 => Syscalls::__NR_preadv2,
        287u64 => Syscalls::__NR_pwritev2,
        288u64 => Syscalls::__NR_pkey_mprotect,
        289u64 => Syscalls::__NR_pkey_alloc,
        290u64 => Syscalls::__NR_pkey_free,
        291u64 => Syscalls::__NR_statx,
        292u64 => Syscalls::__NR_syscalls,
        1024u64 => Syscalls::__NR_open,
        1025u64 => Syscalls::__NR_link,
        1026u64 => Syscalls::__NR_unlink,
        1027u64 => Syscalls::__NR_mknod,
        1028u64 => Syscalls::__NR_chmod,
        1029u64 => Syscalls::__NR_chown,
        1030u64 => Syscalls::__NR_mkdir,
        1031u64 => Syscalls::__NR_rmdir,
        1032u64 => Syscalls::__NR_lchown,
        1033u64 => Syscalls::__NR_access,
        1034u64 => Syscalls::__NR_rename,
        1035u64 => Syscalls::__NR_readlink,
        1036u64 => Syscalls::__NR_symlink,
        1037u64 => Syscalls::__NR_utimes,
        1038u64 => Syscalls::__NR3264_stat,
        1039u64 => Syscalls::__NR3264_lstat,
        1040u64 => Syscalls::__NR_pipe,
        1041u64 => Syscalls::__NR_dup2,
        1042u64 => Syscalls::__NR_epoll_create,
        1043u64 => Syscalls::__NR_inotify_init,
        1044u64 => Syscalls::__NR_eventfd,
        1045u64 => Syscalls::__NR_signalfd,
        1046u64 => Syscalls::__NR_sendfile,
        1047u64 => Syscalls::__NR_ftruncate,
        1048u64 => Syscalls::__NR_truncate,
        1049u64 => Syscalls::__NR_stat,
        1050u64 => Syscalls::__NR_lstat,
        1051u64 => Syscalls::__NR_fstat,
        1052u64 => Syscalls::__NR_fcntl,
        1053u64 => Syscalls::__NR_fadvise64,
        1054u64 => Syscalls::__NR_newfstatat,
        1055u64 => Syscalls::__NR_fstatfs,
        1056u64 => Syscalls::__NR_statfs,
        1057u64 => Syscalls::__NR_lseek,
        1058u64 => Syscalls::__NR_mmap,
        1059u64 => Syscalls::__NR_alarm,
        1060u64 => Syscalls::__NR_getpgrp,
        1061u64 => Syscalls::__NR_pause,
        1062u64 => Syscalls::__NR_time,
        1063u64 => Syscalls::__NR_utime,
        1064u64 => Syscalls::__NR_creat,
        1065u64 => Syscalls::__NR_getdents,
        1066u64 => Syscalls::__NR_futimesat,
        1067u64 => Syscalls::__NR_select,
        1068u64 => Syscalls::__NR_poll,
        1069u64 => Syscalls::__NR_epoll_wait,
        1070u64 => Syscalls::__NR_ustat,
        1071u64 => Syscalls::__NR_vfork,
        1072u64 => Syscalls::__NR_oldwait4,
        1073u64 => Syscalls::__NR_recv,
        1074u64 => Syscalls::__NR_send,
        1075u64 => Syscalls::__NR_bdflush,
        1076u64 => Syscalls::__NR_umount,
        1077u64 => Syscalls::__NR_uselib,
        1078u64 => Syscalls::__NR__sysctl,
        1079u64 => Syscalls::__NR_fork,
        _ => Syscalls::Unknown,
    }
}

/// The table key that dispatching a trap with `nr` in the syscall-number
/// register resolves to: `nr` itself for a canonical number, the reserved
/// unknown marker otherwise.
pub open spec fn spec_dispatch_key(nr: u64) -> u64 {
    spec_syscall_number(spec_syscall_from_number(nr))
}

/// The numeric identifier of `s`, as `spec_syscall_number` gives it.
pub fn syscall_number(s: Syscalls) -> (nr: u64)
    ensures
        nr == spec_syscall_number(s),
{
    match s {
        Syscalls::__NR_io_setup => 0,
        Syscalls::__NR_io_destroy => 1,
        Syscalls::__NR_io_submit => 2,
        Syscalls::__NR_io_cancel => 3,
        Syscalls::__NR_io_getevents => 4,
        Syscalls::__NR_setxattr => 5,
        Syscalls::__NR_lsetxattr => 6,
        Syscalls::__NR_fsetxattr => 7,
        Syscalls::__NR_getxattr => 8,
        Syscalls::__NR_lgetxattr => 9,
        Syscalls::__NR_fgetxattr => 10,
        Syscalls::__NR_listxattr => 11,
        Syscalls::__NR_llistxattr => 12,
        Syscalls::__NR_flistxattr => 13,
        Syscalls::__NR_removexattr => 14,
        Syscalls::__NR_lremovexattr => 15,
        Syscalls::__NR_fremovexattr => 16,
        Syscalls::__NR_getcwd => 17,
        Syscalls::__NR_lookup_dcookie => 18,
        Syscalls::__NR_eventfd2 => 19,
        Syscalls::__NR_epoll_create1 => 20,
        Syscalls::__NR_epoll_ctl => 21,
        Syscalls::__NR_epoll_pwait => 22,
        Syscalls::__NR_dup => 23,
        Syscalls::__NR_dup3 => 24,
        Syscalls::__NR3264_fcntl => 25,
        Syscalls::__NR_inotify_init1 => 26,
        Syscalls::__NR_inotify_add_watch => 27,
        Syscalls::__NR_inotify_rm_watch => 28,
        Syscalls::__NR_ioctl => 29,
        Syscalls::__NR_ioprio_set => 30,
        Syscalls::__NR_ioprio_get => 31,
        Syscalls::__NR_flock => 32,
        Syscalls::__NR_mknodat => 33,
        Syscalls::__NR_mkdirat => 34,
        Syscalls::__NR_unlinkat => 35,
        Syscalls::__NR_symlinkat => 36,
        Syscalls::__NR_linkat => 37,
        Syscalls::__NR_renameat => 38,
        Syscalls::__NR_umount2 => 39,
        Syscalls::__NR_mount => 40,
        Syscalls::__NR_pivot_root => 41,
        Syscalls::__NR_nfsservctl => 42,
        Syscalls::__NR3264_statfs => 43,
        Syscalls::__NR3264_fstatfs => 44,
        Syscalls::__NR3264_truncate => 45,
        Syscalls::__NR3264_ftruncate => 46,
        Syscalls::__NR_fallocate => 47,
        Syscalls::__NR_faccessat => 48,
        Syscalls::__NR_chdir => 49,
        Syscalls::__NR_fchdir => 50,
        Syscalls::__NR_chroot => 51,
        Syscalls::__NR_fchmod => 52,
        Syscalls::__NR_fchmodat => 53,
        Syscalls::__NR_fchownat => 54,
        Syscalls::__NR_fchown => 55,
        Syscalls::__NR_openat => 56,
        Syscalls::__NR_close => 57,
        Syscalls::__NR_vhangup => 58,
        Syscalls::__NR_pipe2 => 59,
        Syscalls::__NR_quotactl => 60,
        Syscalls::__NR_getdents64 => 61,
        Syscalls::__NR3264_lseek => 62,
        Syscalls::__NR_read => 63,
        Syscalls::__NR_write => 64,
        Syscalls::__NR_readv => 65,
        Syscalls::__NR_writev => 66,
        Syscalls::__NR_pread64 => 67,
        Syscalls::__NR_pwrite64 => 68,
        Syscalls::__NR_preadv => 69,
        Syscalls::__NR_pwritev => 70,
        Syscalls::__NR3264_sendfile => 71,
        Syscalls::__NR_pselect6 => 72,
        Syscalls::__NR_ppoll => 73,
        Syscalls::__NR_signalfd4 => 74,
        Syscalls::__NR_vmsplice => 75,
        Syscalls::__NR_splice => 76,
        Syscalls::__NR_tee => 77,
        Syscalls::__NR_readlinkat => 78,
        Syscalls::__NR3264_fstatat => 79,
        Syscalls::__NR3264_fstat => 80,
        Syscalls::__NR_sync => 81,
        Syscalls::__NR_fsync => 82,
        Syscalls::__NR_fdatasync => 83,
        Syscalls::__NR_sync_file_range2 => 84,
        Syscalls::__NR_timerfd_create => 85,
        Syscalls::__NR_timerfd_settime => 86,
        Syscalls::__NR_timerfd_gettime => 87,
        Syscalls::__NR_utimensat => 88,
        Syscalls::__NR_acct => 89,
        Syscalls::__NR_capget => 90,
        Syscalls::__NR_capset => 91,
        Syscalls::__NR_personality => 92,
        Syscalls::__NR_exit => 93,
        Syscalls::__NR_exit_group => 94,
        Syscalls::__NR_waitid => 95,
        Syscalls::__NR_set_tid_address => 96,
        Syscalls::__NR_unshare => 97,
        Syscalls::__NR_futex => 98,
        Syscalls::__NR_set_robust_list => 99,
        Syscalls::__NR_get_robust_list => 100,
        Syscalls::__NR_nanosleep => 101,
        Syscalls::__NR_getitimer => 102,
        Syscalls::__NR_setitimer => 103,
        Syscalls::__NR_kexec_load => 104,
        Syscalls::__NR_init_module => 105,
        Syscalls::__NR_delete_module => 106,
        Syscalls::__NR_timer_create => 107,
        Syscalls::__NR_timer_gettime => 108,
        Syscalls::__NR_timer_getoverrun => 109,
        Syscalls::__NR_timer_settime => 110,
        Syscalls::__NR_timer_delete => 111,
        Syscalls::__NR_clock_settime => 112,
        Syscalls::__NR_clock_gettime => 113,
        Syscalls::__NR_clock_getres => 114,
        Syscalls::__NR_clock_nanosleep => 115,
        Syscalls::__NR_syslog => 116,
        Syscalls::__NR_ptrace => 117,
        Syscalls::__NR_sched_setparam => 118,
        Syscalls::__NR_sched_setscheduler => 119,
        Syscalls::__NR_sched_getscheduler => 120,
        Syscalls::__NR_sched_getparam => 121,
        Syscalls::__NR_sched_setaffinity => 122,
        Syscalls::__NR_sched_getaffinity => 123,
        Syscalls::__NR_sched_yield => 124,
        Syscalls::__NR_sched_get_priority_max => 125,
        Syscalls::__NR_sched_get_priority_min => 126,
        Syscalls::__NR_sched_rr_get_interval => 127,
        Syscalls::__NR_restart_syscall => 128,
        Syscalls::__NR_kill => 129,
        Syscalls::__NR_tkill => 130,
        Syscalls::__NR_tgkill => 131,
        Syscalls::__NR_sigaltstack => 132,
        Syscalls::__NR_rt_sigsuspend => 133,
        Syscalls::__NR_rt_sigaction => 134,
        Syscalls::__NR_rt_sigprocmask => 135,
        Syscalls::__NR_rt_sigpending => 136,
        Syscalls::__NR_rt_sigtimedwait => 137,
        Syscalls::__NR_rt_sigqueueinfo => 138,
        Syscalls::__NR_rt_sigreturn => 139,
        Syscalls::__NR_setpriority => 140,
        Syscalls::__NR_getpriority => 141,
        Syscalls::__NR_reboot => 142,
        Syscalls::__NR_setregid => 143,
        Syscalls::__NR_setgid => 144,
        Syscalls::__NR_setreuid => 145,
        Syscalls::__NR_setuid => 146,
        Syscalls::__NR_setresuid => 147,
        Syscalls::__NR_getresuid => 148,
        Syscalls::__NR_setresgid => 149,
        Syscalls::__NR_getresgid => 150,
        Syscalls::__NR_setfsuid => 151,
        Syscalls::__NR_setfsgid => 152,
        Syscalls::__NR_times => 153,
        Syscalls::__NR_setpgid => 154,
        Syscalls::__NR_getpgid => 155,
        Syscalls::__NR_getsid => 156,
        Syscalls::__NR_setsid => 157,
        Syscalls::__NR_getgroups => 158,
        Syscalls::__NR_setgroups => 159,
        Syscalls::__NR_uname => 160,
        Syscalls::__NR_sethostname => 161,
        Syscalls::__NR_setdomainname => 162,
        Syscalls::__NR_getrlimit => 163,
        Syscalls::__NR_setrlimit => 164,
        Syscalls::__NR_getrusage => 165,
        Syscalls::__NR_umask => 166,
        Syscalls::__NR_prctl => 167,
        Syscalls::__NR_getcpu => 168,
        Syscalls::__NR_gettimeofday => 169,
        Syscalls::__NR_settimeofday => 170,
        Syscalls::__NR_adjtimex => 171,
        Syscalls::__NR_getpid => 172,
        Syscalls::__NR_getppid => 173,
        Syscalls::__NR_getuid => 174,
        Syscalls::__NR_geteuid => 175,
        Syscalls::__NR_getgid => 176,
        Syscalls::__NR_getegid => 177,
        Syscalls::__NR_gettid => 178,
        Syscalls::__NR_sysinfo => 179,
        Syscalls::__NR_mq_open => 180,
        Syscalls::__NR_mq_unlink => 181,
        Syscalls::__NR_mq_timedsend => 182,
        Syscalls::__NR_mq_timedreceive => 183,
        Syscalls::__NR_mq_notify => 184,
        Syscalls::__NR_mq_getsetattr => 185,
        Syscalls::__NR_msgget => 186,
        Syscalls::__NR_msgctl => 187,
        Syscalls::__NR_msgrcv => 188,
        Syscalls::__NR_msgsnd => 189,
        Syscalls::__NR_semget => 190,
        Syscalls::__NR_semctl => 191,
        Syscalls::__NR_semtimedop => 192,
        Syscalls::__NR_semop => 193,
        Syscalls::__NR_shmget => 194,
        Syscalls::__NR_shmctl => 195,
        Syscalls::__NR_shmat => 196,
        Syscalls::__NR_shmdt => 197,
        Syscalls::__NR_socket => 198,
        Syscalls::__NR_socketpair => 199,
        Syscalls::__NR_bind => 200,
        Syscalls::__NR_listen => 201,
        Syscalls::__NR_accept => 202,
        Syscalls::__NR_connect => 203,
        Syscalls::__NR_getsockname => 204,
        Syscalls::__NR_getpeername => 205,
        Syscalls::__NR_sendto => 206,
        Syscalls::__NR_recvfrom => 207,
        Syscalls::__NR_setsockopt => 208,
        Syscalls::__NR_getsockopt => 209,
        Syscalls::__NR_shutdown => 210,
        Syscalls::__NR_sendmsg => 211,
        Syscalls::__NR_recvmsg => 212,
        Syscalls::__NR_readahead => 213,
        Syscalls::__NR_brk => 214,
        Syscalls::__NR_munmap => 215,
        Syscalls::__NR_mremap => 216,
        Syscalls::__NR_add_key => 217,
        Syscalls::__NR_request_key => 218,
        Syscalls::__NR_keyctl => 219,
        Syscalls::__NR_clone => 220,
        Syscalls::__NR_execve => 221,
        Syscalls::__NR3264_mmap => 222,
        Syscalls::__NR3264_fadvise64 => 223,
        Syscalls::__NR_swapon => 224,
        Syscalls::__NR_swapoff => 225,
        Syscalls::__NR_mprotect => 226,
        Syscalls::__NR_msync => 227,
        Syscalls::__NR_mlock => 228,
        Syscalls::__NR_munlock => 229,
        Syscalls::__NR_mlockall => 230,
        Syscalls::__NR_munlockall => 231,
        Syscalls::__NR_mincore => 232,
        Syscalls::__NR_madvise => 233,
        Syscalls::__NR_remap_file_pages => 234,
        Syscalls::__NR_mbind => 235,
        Syscalls::__NR_get_mempolicy => 236,
        Syscalls::__NR_set_mempolicy => 237,
        Syscalls::__NR_migrate_pages => 238,
        Syscalls::__NR_move_pages => 239,
        Syscalls::__NR_rt_tgsigqueueinfo => 240,
        Syscalls::__NR_perf_event_open => 241,
        Syscalls::__NR_accept4 => 242,
        Syscalls::__NR_recvmmsg => 243,
        Syscalls::__NR_arch_specific_syscall => 244,
        Syscalls::__NR_wait4 => 260,
        Syscalls::__NR_prlimit64 => 261,
        Syscalls::__NR_fanotify_init => 262,
        Syscalls::__NR_fanotify_mark => 263,
        Syscalls::__NR_name_to_handle_at => 264,
        Syscalls::__NR_open_by_handle_at => 265,
        Syscalls::__NR_clock_adjtime => 266,
        Syscalls::__NR_syncfs => 267,
        Syscalls::__NR_setns => 268,
        Syscalls::__NR_sendmmsg => 269,
        Syscalls::__NR_process_vm_readv => 270,
        Syscalls::__NR_process_vm_writev => 271,
        Syscalls::__NR_kcmp => 272,
        Syscalls::__NR_finit_module => 273,
        Syscalls::__NR_sched_setattr => 274,
        Syscalls::__NR_sched_getattr => 275,
        Syscalls::__NR_renameat2 => 276,
        Syscalls::__NR_seccomp => 277,
        Syscalls::__NR_getrandom => 278,
        Syscalls::__NR_memfd_create => 279,
        Syscalls::__NR_bpf => 280,
        Syscalls::__NR_execveat => 281,
        Syscalls::__NR_userfaultfd => 282,
        Syscalls::__NR_membarrier => 283,
        Syscalls::__NR_mlock2 => 284,
        Syscalls::__NR_copy_file_range => 285,
        Syscalls::__NR_preadv2 => 286,
        Syscalls::__NR_pwritev2 => 287,
        Syscalls::__NR_pkey_mprotect => 288,
        Syscalls::__NR_pkey_alloc => 289,
        Syscalls::__NR_pkey_free => 290,
        Syscalls::__NR_statx => 291,
        Syscalls::__NR_syscalls => 292,
        Syscalls::__NR_open => 1024,
        Syscalls::__NR_link => 1025,
        Syscalls::__NR_unlink => 1026,
        Syscalls::__NR_mknod => 1027,
        Syscalls::__NR_chmod => 1028,
        Syscalls::__NR_chown => 1029,
        Syscalls::__NR_mkdir => 1030,
        Syscalls::__NR_rmdir => 1031,
        Syscalls::__NR_lchown => 1032,
        Syscalls::__NR_access => 1033,
        Syscalls::__NR_rename => 1034,
        Syscalls::__NR_readlink => 1035,
        Syscalls::__NR_symlink => 1036,
        Syscalls::__NR_utimes => 1037,
        Syscalls::__NR3264_stat => 1038,
        Syscalls::__NR3264_lstat => 1039,
        Syscalls::__NR_pipe => 1040,
        Syscalls::__NR_dup2 => 1041,
        Syscalls::__NR_epoll_create => 1042,
        Syscalls::__NR_inotify_init => 1043,
        Syscalls::__NR_eventfd => 1044,
        Syscalls::__NR_signalfd => 1045,
        Syscalls::__NR_sendfile => 1046,
        Syscalls::__NR_ftruncate => 1047,
        Syscalls::__NR_truncate => 1048,
        Syscalls::__NR_stat => 1049,
        Syscalls::__NR_lstat => 1050,
        Syscalls::__NR_fstat => 1051,
        Syscalls::__NR_fcntl => 1052,
        Syscalls::__NR_fadvise64 => 1053,
        Syscalls::__NR_newfstatat => 1054,
        Syscalls::__NR_fstatfs => 1055,
        Syscalls::__NR_statfs => 1056,
        Syscalls::__NR_lseek => 1057,
        Syscalls::__NR_mmap => 1058,
        Syscalls::__NR_alarm => 1059,
        Syscalls::__NR_getpgrp => 1060,
        Syscalls::__NR_pause => 1061,
        Syscalls::__NR_time => 1062,
        Syscalls::__NR_utime => 1063,
        Syscalls::__NR_creat => 1064,
        Syscalls::__NR_getdents => 1065,
        Syscalls::__NR_futimesat => 1066,
        Syscalls::__NR_select => 1067,
        Syscalls::__NR_poll => 1068,
        Syscalls::__NR_epoll_wait => 1069,
        Syscalls::__NR_ustat => 1070,
        Syscalls::__NR_vfork => 1071,
        Syscalls::__NR_oldwait4 => 1072,
        Syscalls::__NR_recv => 1073,
        Syscalls::__NR_send => 1074,
        Syscalls::__NR_bdflush => 1075,
        Syscalls::__NR_umount => 1076,
        Syscalls::__NR_uselib => 1077,
        Syscalls::__NR__sysctl => 1078,
        Syscalls::__NR_fork => 1079,
        Syscalls::Unknown => UNKNOWN_SYSCALL_NUMBER,
    }
}

/// The canonical identifier named by `nr`. The second clause pins the
/// mapping as a partial inverse of `spec_syscall_number`: a canonical `nr`
/// comes back out of its identifier unchanged.
#[verifier::rlimit(100)]
pub fn syscall_from_number(nr: u64) -> (s: Syscalls)
    ensures
        s == spec_syscall_from_number(nr),
        spec_syscall_number(s) == if s == Syscalls::Unknown { UNKNOWN_SYSCALL_NUMBER } else { nr },
{
    match nr {
        0 => Syscalls::__NR_io_setup,
        1 => Syscalls::__NR_io_destroy,
        2 => Syscalls::__NR_io_submit,
        3 => Syscalls::__NR_io_cancel,
        4 => Syscalls::__NR_io_getevents,
        5 => Syscalls::__NR_setxattr,
        6 => Syscalls::__NR_lsetxattr,
        7 => Syscalls::__NR_fsetxattr,
        8 => Syscalls::__NR_getxattr,
        9 => Syscalls::__NR_lgetxattr,
        10 => Syscalls::__NR_fgetxattr,
        11 => Syscalls::__NR_listxattr,
        12 => Syscalls::__NR_llistxattr,
        13 => Syscalls::__NR_flistxattr,
        14 => Syscalls::__NR_removexattr,
        15 => Syscalls::__NR_lremovexattr,
        16 => Syscalls::__NR_fremovexattr,
        17 => Syscalls::__NR_getcwd,
        18 => Syscalls::__NR_lookup_dcookie,
        19 => Syscalls::__NR_eventfd2,
        20 => Syscalls::__NR_epoll_create1,
        21 => Syscalls::__NR_epoll_ctl,
        22 => Syscalls::__NR_epoll_pwait,
        23 => Syscalls::__NR_dup,
        24 => Syscalls::__NR_dup3,
        25 => Syscalls::__NR3264_fcntl,
        26 => Syscalls::__NR_inotify_init1,
        27 => Syscalls::__NR_inotify_add_watch,
        28 => Syscalls::__NR_inotify_rm_watch,
        29 => Syscalls::__NR_ioctl,
        30 => Syscalls::__NR_ioprio_set,
        31 => Syscalls::__NR_ioprio_get,
        32 => Syscalls::__NR_flock,
        33 => Syscalls::__NR_mknodat,
        34 => Syscalls::__NR_mkdirat,
        35 => Syscalls::__NR_unlinkat,
        36 => Syscalls::__NR_symlinkat,
        37 => Syscalls::__NR_linkat,
        38 => Syscalls::__NR_renameat,
        39 => Syscalls::__NR_umount2,
        40 => Syscalls::__NR_mount,
        41 => Syscalls::__NR_pivot_root,
        42 => Syscalls::__NR_nfsservctl,
        43 => Syscalls::__NR3264_statfs,
        44 => Syscalls::__NR3264_fstatfs,
        45 => Syscalls::__NR3264_truncate,
        46 => Syscalls::__NR3264_ftruncate,
        47 => Syscalls::__NR_fallocate,
        48 => Syscalls::__NR_faccessat,
        49 => Syscalls::__NR_chdir,
        50 => Syscalls::__NR_fchdir,
        51 => Syscalls::__NR_chroot,
        52 => Syscalls::__NR_fchmod,
        53 => Syscalls::__NR_fchmodat,
        54 => Syscalls::__NR_fchownat,
        55 => Syscalls::__NR_fchown,
        56 => Syscalls::__NR_openat,
        57 => Syscalls::__NR_close,
        58 => Syscalls::__NR_vhangup,
        59 => Syscalls::__NR_pipe2,
        60 => Syscalls::__NR_quotactl,
        61 => Syscalls::__NR_getdents64,
        62 => Syscalls::__NR3264_lseek,
        63 => Syscalls::__NR_read,
        64 => Syscalls::__NR_write,
        65 => Syscalls::__NR_readv,
        66 => Syscalls::__NR_writev,
        67 => Syscalls::__NR_pread64,
        68 => Syscalls::__NR_pwrite64,
        69 => Syscalls::__NR_preadv,
        70 => Syscalls::__NR_pwritev,
        71 => Syscalls::__NR3264_sendfile,
        72 => Syscalls::__NR_pselect6,
        73 => Syscalls::__NR_ppoll,
        74 => Syscalls::__NR_signalfd4,
        75 => Syscalls::__NR_vmsplice,
        76 => Syscalls::__NR_splice,
        77 => Syscalls::__NR_tee,
        78 => Syscalls::__NR_readlinkat,
        79 => Syscalls::__NR3264_fstatat,
        80 => Syscalls::__NR3264_fstat,
        81 => Syscalls::__NR_sync,
        82 => Syscalls::__NR_fsync,
        83 => Syscalls::__NR_fdatasync,
        84 => Syscalls::__NR_sync_file_range2,
        85 => Syscalls::__NR_timerfd_create,
        86 => Syscalls::__NR_timerfd_settime,
        87 => Syscalls::__NR_timerfd_gettime,
        88 => Syscalls::__NR_utimensat,
        89 => Syscalls::__NR_acct,
        90 => Syscalls::__NR_capget,
        91 => Syscalls::__NR_capset,
        92 => Syscalls::__NR_personality,
        93 => Syscalls::__NR_exit,
        94 => Syscalls::__NR_exit_group,
        95 => Syscalls::__NR_waitid,
        96 => Syscalls::__NR_set_tid_address,
        97 => Syscalls::__NR_unshare,
        98 => Syscalls::__NR_futex,
        99 => Syscalls::__NR_set_robust_list,
        100 => Syscalls::__NR_get_robust_list,
        101 => Syscalls::__NR_nanosleep,
        102 => Syscalls::__NR_getitimer,
        103 => Syscalls::__NR_setitimer,
        104 => Syscalls::__NR_kexec_load,
        105 => Syscalls::__NR_init_module,
        106 => Syscalls::__NR_delete_module,
        107 => Syscalls::__NR_timer_create,
        108 => Syscalls::__NR_timer_gettime,
        109 => Syscalls::__NR_timer_getoverrun,
        110 => Syscalls::__NR_timer_settime,
        111 => Syscalls::__NR_timer_delete,
        112 => Syscalls::__NR_clock_settime,
        113 => Syscalls::__NR_clock_gettime,
        114 => Syscalls::__NR_clock_getres,
        115 => Syscalls::__NR_clock_nanosleep,
        116 => Syscalls::__NR_syslog,
        117 => Syscalls::__NR_ptrace,
        118 => Syscalls::__NR_sched_setparam,
        119 => Syscalls::__NR_sched_setscheduler,
        120 => Syscalls::__NR_sched_getscheduler,
        121 => Syscalls::__NR_sched_getparam,
        122 => Syscalls::__NR_sched_setaffinity,
        123 => Syscalls::__NR_sched_getaffinity,
        124 => Syscalls::__NR_sched_yield,
        125 => Syscalls::__NR_sched_get_priority_max,
        126 => Syscalls::__NR_sched_get_priority_min,
        127 => Syscalls::__NR_sched_rr_get_interval,
        128 => Syscalls::__NR_restart_syscall,
        129 => Syscalls::__NR_kill,
        130 => Syscalls::__NR_tkill,
        131 => Syscalls::__NR_tgkill,
        132 => Syscalls::__NR_sigaltstack,
        133 => Syscalls::__NR_rt_sigsuspend,
        134 => Syscalls::__NR_rt_sigaction,
        135 => Syscalls::__NR_rt_sigprocmask,
        136 => Syscalls::__NR_rt_sigpending,
        137 => Syscalls::__NR_rt_sigtimedwait,
        138 => Syscalls::__NR_rt_sigqueueinfo,
        139 => Syscalls::__NR_rt_sigreturn,
        140 => Syscalls::__NR_setpriority,
        141 => Syscalls::__NR_getpriority,
        142 => Syscalls::__NR_reboot,
        143 => Syscalls::__NR_setregid,
        144 => Syscalls::__NR_setgid,
        145 => Syscalls::__NR_setreuid,
        146 => Syscalls::__NR_setuid,
        147 => Syscalls::__NR_setresuid,
        148 => Syscalls::__NR_getresuid,
        149 => Syscalls::__NR_setresgid,
        150 => Syscalls::__NR_getresgid,
        151 => Syscalls::__NR_setfsuid,
        152 => Syscalls::__NR_setfsgid,
        153 => Syscalls::__NR_times,
        154 => Syscalls::__NR_setpgid,
        155 => Syscalls::__NR_getpgid,
        156 => Syscalls::__NR_getsid,
        157 => Syscalls::__NR_setsid,
        158 => Syscalls::__NR_getgroups,
        159 => Syscalls::__NR_setgroups,
        160 => Syscalls::__NR_uname,
        161 => Syscalls::__NR_sethostname,
        162 => Syscalls::__NR_setdomainname,
        163 => Syscalls::__NR_getrlimit,
        164 => Syscalls::__NR_setrlimit,
        165 => Syscalls::__NR_getrusage,
        166 => Syscalls::__NR_umask,
        167 => Syscalls::__NR_prctl,
        168 => Syscalls::__NR_getcpu,
        169 => Syscalls::__NR_gettimeofday,
        170 => Syscalls::__NR_settimeofday,
        171 => Syscalls::__NR_adjtimex,
        172 => Syscalls::__NR_getpid,
        173 => Syscalls::__NR_getppid,
        174 => Syscalls::__NR_getuid,
        175 => Syscalls::__NR_geteuid,
        176 => Syscalls::__NR_getgid,
        177 => Syscalls::__NR_getegid,
        178 => Syscalls::__NR_gettid,
        179 => Syscalls::__NR_sysinfo,
        180 => Syscalls::__NR_mq_open,
        181 => Syscalls::__NR_mq_unlink,
        182 => Syscalls::__NR_mq_timedsend,
        183 => Syscalls::__NR_mq_timedreceive,
        184 => Syscalls::__NR_mq_notify,
        185 => Syscalls::__NR_mq_getsetattr,
        186 => Syscalls::__NR_msgget,
        187 => Syscalls::__NR_msgctl,
        188 => Syscalls::__NR_msgrcv,
        189 => Syscalls::__NR_msgsnd,
        190 => Syscalls::__NR_semget,
        191 => Syscalls::__NR_semctl,
        192 => Syscalls::__NR_semtimedop,
        193 => Syscalls::__NR_semop,
        194 => Syscalls::__NR_shmget,
        195 => Syscalls::__NR_shmctl,
        196 => Syscalls::__NR_shmat,
        197 => Syscalls::__NR_shmdt,
        198 => Syscalls::__NR_socket,
        199 => Syscalls::__NR_socketpair,
        200 => Syscalls::__NR_bind,
        201 => Syscalls::__NR_listen,
        202 => Syscalls::__NR_accept,
        203 => Syscalls::__NR_connect,
        204 => Syscalls::__NR_getsockname,
        205 => Syscalls::__NR_getpeername,
        206 => Syscalls::__NR_sendto,
        207 => Syscalls::__NR_recvfrom,
        208 => Syscalls::__NR_setsockopt,
        209 => Syscalls::__NR_getsockopt,
        210 => Syscalls::__NR_shutdown,
        211 => Syscalls::__NR_sendmsg,
        212 => Syscalls::__NR_recvmsg,
        213 => Syscalls::__NR_readahead,
        214 => Syscalls::__NR_brk,
        215 => Syscalls::__NR_munmap,
        216 => Syscalls::__NR_mremap,
        217 => Syscalls::__NR_add_key,
        218 => Syscalls::__NR_request_key,
        219 => Syscalls::__NR_keyctl,
        220 => Syscalls::__NR_clone,
        221 => Syscalls::__NR_execve,
        222 => Syscalls::__NR3264_mmap,
        223 => Syscalls::__NR3264_fadvise64,
        224 => Syscalls::__NR_swapon,
        225 => Syscalls::__NR_swapoff,
        226 => Syscalls::__NR_mprotect,
        227 => Syscalls::__NR_msync,
        228 => Syscalls::__NR_mlock,
        229 => Syscalls::__NR_munlock,
        230 => Syscalls::__NR_mlockall,
        231 => Syscalls::__NR_munlockall,
        232 => Syscalls::__NR_mincore,
        233 => Syscalls::__NR_madvise,
        234 => Syscalls::__NR_remap_file_pages,
        235 => Syscalls::__NR_mbind,
        236 => Syscalls::__NR_get_mempolicy,
        237 => Syscalls::__NR_set_mempolicy,
        238 => Syscalls::__NR_migrate_pages,
        239 => Syscalls::__NR_move_pages,
        240 => Syscalls::__NR_rt_tgsigqueueinfo,
        241 => Syscalls::__NR_perf_event_open,
        242 => Syscalls::__NR_accept4,
        243 => Syscalls::__NR_recvmmsg,
        244 => Syscalls::__NR_arch_specific_syscall,
        260 => Syscalls::__NR_wait4,
        261 => Syscalls::__NR_prlimit64,
        262 => Syscalls::__NR_fanotify_init,
        263 => Syscalls::__NR_fanotify_mark,
        264 => Syscalls::__NR_name_to_handle_at,
        265 => Syscalls::__NR_open_by_handle_at,
        266 => Syscalls::__NR_clock_adjtime,
        267 => Syscalls::__NR_syncfs,
        268 => Syscalls::__NR_setns,
        269 => Syscalls::__NR_sendmmsg,
        270 => Syscalls::__NR_process_vm_readv,
        271 => Syscalls::__NR_process_vm_writev,
        272 => Syscalls::__NR_kcmp,
        273 => Syscalls::__NR_finit_module,
        274 => Syscalls::__NR_sched_setattr,
        275 => Syscalls::__NR_sched_getattr,
        276 => Syscalls::__NR_renameat2,
        277 => Syscalls::__NR_seccomp,
        278 => Syscalls::__NR_getrandom,
        279 => Syscalls::__NR_memfd_create,
        280 => Syscalls::__NR_bpf,
        281 => Syscalls::__NR_execveat,
        282 => Syscalls::__NR_userfaultfd,
        283 => Syscalls::__NR_membarrier,
        284 => Syscalls::__NR_mlock2,
        285 => Syscalls::__NR_copy_file_range,
        286 => Syscalls::__NR_preadv2,
        287 => Syscalls::__NR_pwritev2,
        288 => Syscalls::__NR_pkey_mprotect,
        289 => Syscalls::__NR_pkey_alloc,
        290 => Syscalls::__NR_pkey_free,
        291 => Syscalls::__NR_statx,
        292 => Syscalls::__NR_syscalls,
        1024 => Syscalls::__NR_open,
        1025 => Syscalls::__NR_link,
        1026 => Syscalls::__NR_unlink,
        1027 => Syscalls::__NR_mknod,
        1028 => Syscalls::__NR_chmod,
        1029 => Syscalls::__NR_chown,
        1030 => Syscalls::__NR_mkdir,
        1031 => Syscalls::__NR_rmdir,
        1032 => Syscalls::__NR_lchown,
        1033 => Syscalls::__NR_access,
        1034 => Syscalls::__NR_rename,
        1035 => Syscalls::__NR_readlink,
        1036 => Syscalls::__NR_symlink,
        1037 => Syscalls::__NR_utimes,
        1038 => Syscalls::__NR3264_stat,
        1039 => Syscalls::__NR3264_lstat,
        1040 => Syscalls::__NR_pipe,
        1041 => Syscalls::__NR_dup2,
        1042 => Syscalls::__NR_epoll_create,
        1043 => Syscalls::__NR_inotify_init,
        1044 => Syscalls::__NR_eventfd,
        1045 => Syscalls::__NR_signalfd,
        1046 => Syscalls::__NR_sendfile,
        1047 => Syscalls::__NR_ftruncate,
        1048 => Syscalls::__NR_truncate,
        1049 => Syscalls::__NR_stat,
        1050 => Syscalls::__NR_lstat,
        1051 => Syscalls::__NR_fstat,
        1052 => Syscalls::__NR_fcntl,
        1053 => Syscalls::__NR_fadvise64,
        1054 => Syscalls::__NR_newfstatat,
        1055 => Syscalls::__NR_fstatfs,
        1056 => Syscalls::__NR_statfs,
        1057 => Syscalls::__NR_lseek,
        1058 => Syscalls::__NR_mmap,
        1059 => Syscalls::__NR_alarm,
        1060 => Syscalls::__NR_getpgrp,
        1061 => Syscalls::__NR_pause,
        1062 => Syscalls::__NR_time,
        1063 => Syscalls::__NR_utime,
        1064 => Syscalls::__NR_creat,
        1065 => Syscalls::__NR_getdents,
        1066 => Syscalls::__NR_futimesat,
        1067 => Syscalls::__NR_select,
        1068 => Syscalls::__NR_poll,
        1069 => Syscalls::__NR_epoll_wait,
        1070 => Syscalls::__NR_ustat,
        1071 => Syscalls::__NR_vfork,
        1072 => Syscalls::__NR_oldwait4,
        1073 => Syscalls::__NR_recv,
        1074 => Syscalls::__NR_send,
        1075 => Syscalls::__NR_bdflush,
        1076 => Syscalls::__NR_umount,
        1077 => Syscalls::__NR_uselib,
        1078 => Syscalls::__NR__sysctl,
        1079 => Syscalls::__NR_fork,
        _ => Syscalls::Unknown,
    }
}

/// Read the canonical syscall identifier of the current trap from the
/// designated syscall-number register.
pub fn get_syscall(backend: &Backend) -> (s: Syscalls)
    ensures
        s == spec_syscall_from_number(backend.reg_val(Reg::X8)),
{
    syscall_from_number(backend.reg_read(Reg::X8))
}

} // verus!
