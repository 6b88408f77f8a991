//! Creating a marketplace.
use vstd::prelude::*;

use crate::ledger::{Account, Pubkey};
use crate::marketplace::{MarketPlaceErrors, Marketplace};

verus! {

/// Bumps found for the accounts of a new marketplace.
#[derive(Clone, Copy, Debug)]
pub struct InitMarketplaceBumps {
    pub market_place_account: u8,
    pub treasury_account: u8,
    pub reward_account: u8,
}

/// Accounts of the marketplace creation.
#[derive(Clone, Debug)]
pub struct InitMarketplace {
    pub admin: Pubkey,
    pub market_place_account: Account<Marketplace>,
    pub treasury_account: Pubkey,
    pub reward_account: Pubkey,
}

/// The length in bytes (UTF-8) of a name.
pub open spec fn name_len(name: Seq<char>) -> nat {
    vstd::utf8::encode_utf8(name).len()
}

/// A marketplace name is accepted when it has two to thirty-two bytes.
pub open spec fn valid_name(name: Seq<char>) -> bool {
    1 < name_len(name) && name_len(name) <= 32
}

impl InitMarketplace {
    /// Creates the marketplace `name` with fee `fee` (basis points), owned by
    /// the caller. A name of fewer than two or more than thirty-two bytes is
    /// refused with `TooLongName`, and nothing is written.
    pub fn initialize_marketplace(&mut self, name: String, fee: u16, bumps: InitMarketplaceBumps) -> (r: Result<
        (),
        MarketPlaceErrors,
    >)
        ensures
            r is Ok <==> valid_name(name@),
            r is Err ==> r == Err::<(), MarketPlaceErrors>(MarketPlaceErrors::TooLongName),
            r is Err ==> *final(self) == *old(self),
            r is Ok ==> final(self).market_place_account.data == (Marketplace {
                admin: old(self).admin,
                fees: fee,
                marketplace_bump: bumps.market_place_account,
                treasury_bump: bumps.treasury_account,
                reward_bum: bumps.reward_account,
                name,
            }),
            final(self).market_place_account.key == old(self).market_place_account.key,
            final(self).admin == old(self).admin,
            final(self).treasury_account == old(self).treasury_account,
            final(self).reward_account == old(self).reward_account,
    {
        let text: &str = name.as_str();
        let len = text.as_bytes().len();
        assert(len == name_len(name@));
        if !(len > 1 && len <= 32) {
            return Err(MarketPlaceErrors::TooLongName);
        }
        self.market_place_account.data = Marketplace {
            admin: self.admin,
            fees: fee,
            marketplace_bump: bumps.market_place_account,
            treasury_bump: bumps.treasury_account,
            reward_bum: bumps.reward_account,
            name,
        };
        Ok(())
    }
}

} // verus!
