use referandium::{initialize_vault, InitializeVault, Pubkey, ReferandiumError, VaultAccount};

#[test]
fn vault_starts_with_the_caller_as_authority_and_no_market() {
    let caller = Pubkey::new_from_array([42u8; 32]);
    let mut ctx = InitializeVault { vault: None, authority: caller, vault_bump: 251 };
    assert_eq!(initialize_vault(&mut ctx), Ok(()));
    assert_eq!(
        ctx.vault,
        Some(VaultAccount { authority: caller, total_markets: 0, bump: 251 })
    );
    assert_eq!(ctx.authority, caller);
    assert_eq!(ctx.vault_bump, 251);
}

#[test]
fn vault_is_created_once() {
    let first = Pubkey::new_from_array([1u8; 32]);
    let second = Pubkey::new_from_array([2u8; 32]);
    let existing = VaultAccount { authority: first, total_markets: 7, bump: 3 };
    let mut ctx = InitializeVault { vault: Some(existing), authority: second, vault_bump: 9 };
    assert_eq!(initialize_vault(&mut ctx), Err(ReferandiumError::AlreadyExists));
    assert_eq!(ctx.vault, Some(existing));
    assert_eq!(ctx.authority, second);
    assert_eq!(ctx.vault_bump, 9);
}

#[test]
fn record_sizes_are_the_sums_of_their_fields() {
    assert_eq!(VaultAccount::SIZE, 49);
    assert_eq!(referandium::MarketAccount::SIZE, 858);
    assert_eq!(referandium::VoteAccount::SIZE, 90);
}
