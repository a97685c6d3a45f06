use sigcore::errno::Errno;
use sigcore::sys::signal::{
    mask_after, SaFlags, SigAction, SigFlags, SigHandler, SigSet, NSIG, SA_RESETHAND, SA_RESTART,
    SA_SIGINFO, SIGINT, SIGKILL, SIGTERM, SIGUSR1, SIGUSR2,
};

#[test]
fn test_contains() {
    let mut mask = SigSet::empty();
    mask.add(SIGUSR1).unwrap();

    assert_eq!(mask.contains(SIGUSR1), Ok(true));
    assert_eq!(mask.contains(SIGUSR2), Ok(false));

    let all = SigSet::all();
    assert_eq!(all.contains(SIGUSR1), Ok(true));
    assert_eq!(all.contains(SIGUSR2), Ok(true));
}

#[test]
fn test_clear() {
    let mut set = SigSet::all();
    set.clear().unwrap();
    for i in 1..NSIG {
        assert_eq!(set.contains(i), Ok(false));
    }
}

#[test]
fn test_extend() {
    let mut one_signal = SigSet::empty();
    one_signal.add(SIGUSR1).unwrap();

    let mut two_signals = SigSet::empty();
    two_signals.add(SIGUSR2).unwrap();
    two_signals.extend(&one_signal).unwrap();

    assert_eq!(two_signals.contains(SIGUSR1), Ok(true));
    assert_eq!(two_signals.contains(SIGUSR2), Ok(true));
}

#[test]
fn test_empty_and_all_membership() {
    let empty = SigSet::empty();
    let all = SigSet::all();
    for i in 1..NSIG {
        assert_eq!(empty.contains(i), Ok(false));
        assert_eq!(all.contains(i), Ok(true));
    }
}

#[test]
fn test_add_then_remove() {
    let mut set = SigSet::empty();
    for i in [SIGINT, SIGKILL, SIGTERM] {
        set.add(i).unwrap();
        assert_eq!(set.contains(i), Ok(true));
        set.remove(i).unwrap();
        assert_eq!(set.contains(i), Ok(false));
    }
}

#[test]
fn test_remove_touches_only_its_signal() {
    let mut set = SigSet::all();
    set.remove(SIGUSR1).unwrap();
    for i in 1..NSIG {
        assert_eq!(set.contains(i), Ok(i != SIGUSR1));
    }
}

#[test]
fn test_clear_idempotent() {
    let empty = SigSet::empty();
    let mut set = SigSet::all();

    set.clear().unwrap();
    for i in 1..NSIG {
        assert_eq!(set.contains(i), Ok(false));
        assert_eq!(set.contains(i), empty.contains(i));
    }

    set.clear().unwrap();
    for i in 1..NSIG {
        assert_eq!(set.contains(i), Ok(false));
    }
}

#[test]
fn test_boundary_rejects_invalid_identifiers() {
    let mut set = SigSet::empty();
    for bad in [0, NSIG, NSIG + 1, 100, -1] {
        assert_eq!(set.add(bad), Err(Errno::EINVAL));
        assert_eq!(set.remove(bad), Err(Errno::EINVAL));
        assert_eq!(set.contains(bad), Err(Errno::EINVAL));
    }
    // Nothing was silently added along the way.
    for i in 1..NSIG {
        assert_eq!(set.contains(i), Ok(false));
    }
}

#[test]
fn test_errno_from_raw() {
    assert_eq!(Errno::from_raw(1), Errno::EPERM);
    assert_eq!(Errno::from_raw(3), Errno::ESRCH);
    assert_eq!(Errno::from_raw(4), Errno::EINTR);
    assert_eq!(Errno::from_raw(22), Errno::EINVAL);
    assert_eq!(Errno::from_raw(0), Errno::UnknownErrno);
    assert_eq!(Errno::from_raw(9999), Errno::UnknownErrno);
}

#[test]
fn test_saflags_operations() {
    let empty = SaFlags::empty();
    assert_eq!(empty.bits(), 0);

    let restart = SaFlags::from_bits(SA_RESTART);
    let both = restart.union(SaFlags::from_bits(SA_RESETHAND));
    assert_eq!(both.bits(), SA_RESTART | SA_RESETHAND);
    assert!(both.contains(restart));
    assert!(!restart.contains(both));

    let only_resethand = both.difference(restart);
    assert_eq!(only_resethand.bits(), SA_RESETHAND);
}

#[test]
fn test_sigaction_new_forces_siginfo_for_extended_handler() {
    let mask = SigSet::empty();
    let action = SigAction::new(SigHandler::SigAction, SaFlags::from_bits(SA_RESTART), mask);
    assert_eq!(action.handler(), SigHandler::SigAction);
    assert_eq!(action.flags().bits(), SA_RESTART | SA_SIGINFO);
}

#[test]
fn test_sigaction_new_clears_siginfo_for_other_handlers() {
    let mut mask = SigSet::empty();
    mask.add(SIGUSR1).unwrap();
    let asked = SaFlags::from_bits(SA_RESTART | SA_SIGINFO);
    let action = SigAction::new(SigHandler::SigIgn, asked, mask);
    assert_eq!(action.handler(), SigHandler::SigIgn);
    assert_eq!(action.flags().bits(), SA_RESTART);
    assert_eq!(action.mask().contains(SIGUSR1), Ok(true));

    let default_action = SigAction::new(SigHandler::SigDfl, SaFlags::empty(), SigSet::empty());
    assert_eq!(default_action.flags().bits(), 0);
}

#[test]
fn test_mask_after_modes() {
    let mut current = SigSet::empty();
    current.add(SIGUSR1).unwrap();

    let mut update = SigSet::empty();
    update.add(SIGUSR2).unwrap();

    let blocked = mask_after(&current, &update, SigFlags::SIG_BLOCK);
    assert_eq!(blocked.contains(SIGUSR1), Ok(true));
    assert_eq!(blocked.contains(SIGUSR2), Ok(true));

    let unblocked = mask_after(&blocked, &update, SigFlags::SIG_UNBLOCK);
    assert_eq!(unblocked.contains(SIGUSR1), Ok(true));
    assert_eq!(unblocked.contains(SIGUSR2), Ok(false));

    let replaced = mask_after(&blocked, &update, SigFlags::SIG_SETMASK);
    assert_eq!(replaced.contains(SIGUSR1), Ok(false));
    assert_eq!(replaced.contains(SIGUSR2), Ok(true));
}

#[test]
fn test_mask_after_swap_round_trip() {
    let mut original = SigSet::empty();
    original.add(SIGUSR1).unwrap();
    original.add(SIGTERM).unwrap();

    let mut applied = SigSet::empty();
    applied.add(SIGUSR2).unwrap();

    for how in [
        SigFlags::SIG_BLOCK,
        SigFlags::SIG_UNBLOCK,
        SigFlags::SIG_SETMASK,
    ] {
        let changed = mask_after(&original, &applied, how);
        let restored = mask_after(&changed, &original, SigFlags::SIG_SETMASK);
        for i in 1..NSIG {
            assert_eq!(restored.contains(i), original.contains(i));
        }
    }
}
