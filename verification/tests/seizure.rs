//! The seizure operation against real token-2022 mint account bytes,
//! and the end-to-end flow of the control-plane.
use sss_forge::blacklist::{add_to_blacklist, Blacklist};
use sss_forge::errors::ProgramError;
use sss_forge::registry::Registry;
use sss_forge::seize::{authorize_seizure, seize_funds, MintDelegateStatus};
use sss_forge::state::{Address, Config};
use sss_forge::transfer_hook::transfer_hook_execute;
use spl_token_2022::extension::permanent_delegate::PermanentDelegate;
use spl_token_2022::extension::{
    BaseStateWithExtensionsMut, ExtensionType, StateWithExtensionsMut,
};
use spl_token_2022::state::Mint;

fn addr(n: u8) -> Address {
    Address::new([n; 32])
}

fn test_config() -> Config {
    Config {
        master: addr(1),
        minter: addr(2),
        burner: addr(3),
        pauser: addr(4),
        blacklister: addr(5),
        seizer: addr(6),
    }
}

/// Serialize a token-2022 mint that carries the permanent-delegate
/// extension; `delegate` of `None` leaves the capability without a bound
/// authority.
fn mint_with_permanent_delegate(delegate: Option<[u8; 32]>) -> Vec<u8> {
    let len =
        ExtensionType::try_calculate_account_len::<Mint>(&[ExtensionType::PermanentDelegate])
            .unwrap();
    let mut buf = vec![0u8; len];
    let mut state = StateWithExtensionsMut::<Mint>::unpack_uninitialized(&mut buf).unwrap();
    let ext = state.init_extension::<PermanentDelegate>(true).unwrap();
    if let Some(bytes) = delegate {
        ext.delegate = TryFrom::try_from(Some(From::from(bytes))).unwrap();
    }
    state.base.decimals = 9;
    state.base.is_initialized = true;
    state.pack_base();
    state.init_account_type().unwrap();
    drop(state);
    buf
}

/// Serialize a token-2022 mint without any extension.
fn plain_mint() -> Vec<u8> {
    let len = ExtensionType::try_calculate_account_len::<Mint>(&[]).unwrap();
    let mut buf = vec![0u8; len];
    let mut state = StateWithExtensionsMut::<Mint>::unpack_uninitialized(&mut buf).unwrap();
    state.base.decimals = 9;
    state.base.is_initialized = true;
    state.pack_base();
    state.init_account_type().unwrap();
    drop(state);
    buf
}

#[test]
fn seize_on_compliant_mint_succeeds() {
    let config = test_config();
    let mint = mint_with_permanent_delegate(Some([9u8; 32]));
    let r = seize_funds(&config, &addr(6), &mint, &addr(7), &addr(8), 1000, 9);
    let t = r.unwrap();
    assert_eq!(t.source, addr(7));
    assert_eq!(t.destination, addr(8));
    assert_eq!(t.authority, addr(9));
    assert_eq!(t.amount, 1000);
    assert_eq!(t.decimals, 9);
}

#[test]
fn seize_without_capability_fails_gracefully() {
    let config = test_config();
    let mint = plain_mint();
    let r = seize_funds(&config, &addr(6), &mint, &addr(7), &addr(8), 1000, 9);
    assert_eq!(r.unwrap_err(), ProgramError::NotSSS2Compliant);
}

#[test]
fn seize_with_unbound_delegate_fails() {
    let config = test_config();
    let mint = mint_with_permanent_delegate(None);
    let r = seize_funds(&config, &addr(6), &mint, &addr(7), &addr(8), 1000, 9);
    assert_eq!(r.unwrap_err(), ProgramError::MissingPermanentDelegate);
}

#[test]
fn seize_by_non_seizer_fails_before_compliance() {
    let config = test_config();
    let compliant = mint_with_permanent_delegate(Some([9u8; 32]));
    let r = seize_funds(&config, &addr(1), &compliant, &addr(7), &addr(8), 1000, 9);
    assert_eq!(r.unwrap_err(), ProgramError::UnauthorizedSeizer);
    let non_compliant = plain_mint();
    let r = seize_funds(&config, &addr(1), &non_compliant, &addr(7), &addr(8), 1000, 9);
    assert_eq!(r.unwrap_err(), ProgramError::UnauthorizedSeizer);
}

#[test]
fn unreadable_mint_counts_as_non_compliant() {
    let config = test_config();
    let garbage = vec![1u8, 2, 3];
    let r = seize_funds(&config, &addr(6), &garbage, &addr(7), &addr(8), 1000, 9);
    assert_eq!(r.unwrap_err(), ProgramError::NotSSS2Compliant);
}

#[test]
fn authorize_seizure_follows_capability_status() {
    let config = test_config();
    let r = authorize_seizure(
        &config,
        &addr(6),
        MintDelegateStatus::Absent,
        &addr(7),
        &addr(8),
        50,
        6,
    );
    assert_eq!(r.unwrap_err(), ProgramError::NotSSS2Compliant);
    let r = authorize_seizure(
        &config,
        &addr(6),
        MintDelegateStatus::Unreadable,
        &addr(7),
        &addr(8),
        50,
        6,
    );
    assert_eq!(r.unwrap_err(), ProgramError::NotSSS2Compliant);
    let r = authorize_seizure(
        &config,
        &addr(6),
        MintDelegateStatus::Unbound,
        &addr(7),
        &addr(8),
        50,
        6,
    );
    assert_eq!(r.unwrap_err(), ProgramError::MissingPermanentDelegate);
    let r = authorize_seizure(
        &config,
        &addr(6),
        MintDelegateStatus::Bound { delegate: addr(9) },
        &addr(7),
        &addr(8),
        50,
        6,
    );
    let t = r.unwrap();
    assert_eq!(t.authority, addr(9));
    assert_eq!(t.amount, 50);
    assert_eq!(t.decimals, 6);
}

#[test]
fn seize_passes_amount_through_unchanged() {
    let config = test_config();
    let mint = mint_with_permanent_delegate(Some([9u8; 32]));
    let r = seize_funds(&config, &addr(6), &mint, &addr(7), &addr(8), u64::MAX, 0);
    let t = r.unwrap();
    assert_eq!(t.amount, u64::MAX);
    assert_eq!(t.decimals, 0);
}

#[test]
fn end_to_end_blacklist_then_seize() {
    // Roles: master M = 1, blacklister B = 5, seizer S = 6.
    let mut reg = Registry::new();
    assert!(reg.initialize_config(addr(1), addr(2), addr(3), addr(4), addr(5), addr(6)).is_ok());
    let config = *reg.current().unwrap();

    // B blacklists the suspect address X = 20.
    let mut bl = Blacklist::new();
    assert!(add_to_blacklist(&config, &addr(5), &mut bl, &addr(20)).is_ok());

    // Transfers in which X takes part are now vetoed.
    let veto = transfer_hook_execute(&bl, &addr(20), &addr(21), 10);
    assert_eq!(veto, Err(ProgramError::AccountBlacklisted));

    // S seizes from X's account on a compliant mint: the delegated
    // transfer is granted regardless of X's blacklist status, since it
    // runs under the mint's bound delegate, not the normal transfer path.
    let mint = mint_with_permanent_delegate(Some([9u8; 32]));
    let r = seize_funds(&config, &addr(6), &mint, &addr(20), &addr(30), 750, 9);
    let t = r.unwrap();
    assert_eq!(t.source, addr(20));
    assert_eq!(t.destination, addr(30));
    assert_eq!(t.authority, addr(9));
    assert_eq!(t.amount, 750);
}
