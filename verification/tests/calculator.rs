use solana_programs::calculator::{add, double, init, subtract, Add, Data, Double, Initialize, Subtract};
use solana_programs::ledger::Pubkey;

fn signer() -> Pubkey {
    Pubkey { bytes: [9; 32] }
}

#[test]
fn init_sets_the_number() {
    let mut ctx = Initialize { account: Data { num: 5 }, signer: signer() };
    init(&mut ctx, 17);
    assert_eq!(ctx.account.num, 17);
}

#[test]
fn add_double_subtract_compute() {
    let mut a = Add { account: Data { num: 17 }, signer: signer() };
    add(&mut a, 3);
    assert_eq!(a.account.num, 20);
    let mut d = Double { account: a.account, signer: signer() };
    double(&mut d);
    assert_eq!(d.account.num, 40);
    let mut s = Subtract { account: d.account, signer: signer() };
    subtract(&mut s, 40);
    assert_eq!(s.account.num, 0);
}

#[test]
fn subtract_undoes_add() {
    let mut a = Add { account: Data { num: 1_000 }, signer: signer() };
    add(&mut a, u32::MAX - 1_000);
    assert_eq!(a.account.num, u32::MAX);
    let mut s = Subtract { account: a.account, signer: signer() };
    subtract(&mut s, u32::MAX - 1_000);
    assert_eq!(s.account.num, 1_000);
}

#[test]
fn double_is_adding_itself() {
    let mut d = Double { account: Data { num: 21 }, signer: signer() };
    double(&mut d);
    let mut a = Add { account: Data { num: 21 }, signer: signer() };
    add(&mut a, 21);
    assert_eq!(d.account, a.account);
}
