use trap_dispatch::backend::{Backend, EngineKind, Reg};
use trap_dispatch::syscalls::{
    get_syscall, syscall_from_number, syscall_number, Syscalls, UNKNOWN_SYSCALL_NUMBER,
};

#[test]
fn canonical_numbers_of_well_known_syscalls() {
    assert_eq!(syscall_number(Syscalls::__NR_io_setup), 0);
    assert_eq!(syscall_number(Syscalls::__NR_openat), 56);
    assert_eq!(syscall_number(Syscalls::__NR_close), 57);
    assert_eq!(syscall_number(Syscalls::__NR_read), 63);
    assert_eq!(syscall_number(Syscalls::__NR_write), 64);
    assert_eq!(syscall_number(Syscalls::__NR3264_fstat), 80);
    assert_eq!(syscall_number(Syscalls::__NR_exit), 93);
    assert_eq!(syscall_number(Syscalls::__NR_futex), 98);
    assert_eq!(syscall_number(Syscalls::__NR_clock_gettime), 113);
    assert_eq!(syscall_number(Syscalls::__NR_prctl), 167);
    assert_eq!(syscall_number(Syscalls::__NR_clone), 220);
    assert_eq!(syscall_number(Syscalls::__NR3264_mmap), 222);
    assert_eq!(syscall_number(Syscalls::__NR_arch_specific_syscall), 244);
    assert_eq!(syscall_number(Syscalls::__NR_wait4), 260);
    assert_eq!(syscall_number(Syscalls::__NR_statx), 291);
    assert_eq!(syscall_number(Syscalls::__NR_syscalls), 292);
    assert_eq!(syscall_number(Syscalls::__NR_open), 1024);
    assert_eq!(syscall_number(Syscalls::__NR_fork), 1079);
    assert_eq!(syscall_number(Syscalls::Unknown), UNKNOWN_SYSCALL_NUMBER);
}

#[test]
fn from_number_names_the_canonical_identifier() {
    assert_eq!(syscall_from_number(0), Syscalls::__NR_io_setup);
    assert_eq!(syscall_from_number(56), Syscalls::__NR_openat);
    assert_eq!(syscall_from_number(64), Syscalls::__NR_write);
    assert_eq!(syscall_from_number(98), Syscalls::__NR_futex);
    assert_eq!(syscall_from_number(222), Syscalls::__NR3264_mmap);
    assert_eq!(syscall_from_number(260), Syscalls::__NR_wait4);
    assert_eq!(syscall_from_number(1024), Syscalls::__NR_open);
    assert_eq!(syscall_from_number(1079), Syscalls::__NR_fork);
}

#[test]
fn numbers_outside_the_abi_map_to_unknown() {
    for nr in [245u64, 259, 293, 999, 1023, 1080, 5000, u64::MAX] {
        assert_eq!(syscall_from_number(nr), Syscalls::Unknown);
    }
}

#[test]
fn mapping_round_trips_across_the_full_canonical_range() {
    let mut canonical = 0u64;
    for nr in (0u64..=1100).chain([u64::MAX - 1, u64::MAX]) {
        let s = syscall_from_number(nr);
        if s != Syscalls::Unknown {
            assert_eq!(syscall_number(s), nr);
            canonical += 1;
        }
    }
    // 245 base numbers, 33 extended ones, and 56 legacy aliases.
    assert_eq!(canonical, 334);
}

#[test]
fn get_syscall_reads_the_syscall_number_register() {
    let mut backend = Backend::new(EngineKind::Interpretive);
    backend.reg_write(Reg::X8, 64);
    assert_eq!(get_syscall(&backend), Syscalls::__NR_write);
    backend.reg_write(Reg::X8, 5000);
    assert_eq!(get_syscall(&backend), Syscalls::Unknown);
}
