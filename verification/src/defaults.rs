//! The addresses that the engine is deployed with. Each is written in the
//! source as forty hexadecimal digits and decoded when it is asked for.

use crate::address::{be_value, Address};
use crate::hex_text::{all_hex_digits, hex_bytes};
use vstd::prelude::*;

verus! {

/// Reads an address that is written as forty hexadecimal digits.
fn parse(text: &str) -> (r: Address)
    requires
        text@.len() == 40,
        all_hex_digits(text@),
    ensures
        Address::of_hex(text@) == Some(r),
{
    Address::from_hex(text).unwrap()
}

/// The lending market's data provider that a fresh engine queries.
pub open spec fn spec_default_aave_pool_data_provider() -> Address {
    Address { hi: 0x145d_e30c, lo: 0x929a_0655_82bf_c8e9_c1a8_b0b8_c3c3_b5c3 }
}

/// The lending market's data provider that a fresh engine queries.
#[verifier::when_used_as_spec(spec_default_aave_pool_data_provider)]
pub fn default_aave_pool_data_provider() -> (r: Address)
    ensures
        r == spec_default_aave_pool_data_provider(),
{
    proof {
        reveal_strlit("145dE30c929a065582Bfc8e9C1a8B0b8C3c3b5C3");
        reveal_with_fuel(be_value, 17);
        let text = "145dE30c929a065582Bfc8e9C1a8B0b8C3c3b5C3"@;
        assert(all_hex_digits(text));
        let bytes = hex_bytes(text).unwrap();
        assert(be_value(bytes.subrange(0, 4)) == 0x145d_e30c);
        assert(be_value(bytes.subrange(4, 20)) == 0x929a_0655_82bf_c8e9_c1a8_b0b8_c3c3_b5c3);
    }
    parse("145dE30c929a065582Bfc8e9C1a8B0b8C3c3b5C3")
}

/// The position manager of the concentrated-liquidity AMM that a fresh engine
/// queries.
pub open spec fn spec_default_uniswap_position_manager() -> Address {
    Address { hi: 0xc364_42b4, lo: 0xa452_2e87_1399_cd71_7abd_d847_ab11_fe88 }
}

/// The position manager of the concentrated-liquidity AMM that a fresh engine
/// queries.
#[verifier::when_used_as_spec(spec_default_uniswap_position_manager)]
pub fn default_uniswap_position_manager() -> (r: Address)
    ensures
        r == spec_default_uniswap_position_manager(),
{
    proof {
        reveal_strlit("C36442b4a4522E871399CD717aBDD847Ab11FE88");
        reveal_with_fuel(be_value, 17);
        let text = "C36442b4a4522E871399CD717aBDD847Ab11FE88"@;
        assert(all_hex_digits(text));
        let bytes = hex_bytes(text).unwrap();
        assert(be_value(bytes.subrange(0, 4)) == 0xc364_42b4);
        assert(be_value(bytes.subrange(4, 20)) == 0xa452_2e87_1399_cd71_7abd_d847_ab11_fe88);
    }
    parse("C36442b4a4522E871399CD717aBDD847Ab11FE88")
}

/// The stableswap pool that a fresh engine queries.
pub open spec fn spec_default_curve_tricrypto_pool() -> Address {
    Address { hi: 0x960e_a3e3, lo: 0xc7fb_3173_32d9_9087_3d35_4e18_d764_5590 }
}

/// The stableswap pool that a fresh engine queries.
#[verifier::when_used_as_spec(spec_default_curve_tricrypto_pool)]
pub fn default_curve_tricrypto_pool() -> (r: Address)
    ensures
        r == spec_default_curve_tricrypto_pool(),
{
    proof {
        reveal_strlit("960ea3e3C7FB317332d990873d354E18d7645590");
        reveal_with_fuel(be_value, 17);
        let text = "960ea3e3C7FB317332d990873d354E18d7645590"@;
        assert(all_hex_digits(text));
        let bytes = hex_bytes(text).unwrap();
        assert(be_value(bytes.subrange(0, 4)) == 0x960e_a3e3);
        assert(be_value(bytes.subrange(4, 20)) == 0xc7fb_3173_32d9_9087_3d35_4e18_d764_5590);
    }
    parse("960ea3e3C7FB317332d990873d354E18d7645590")
}

/// The reward gauge of the stableswap pool. Stored, and read by no valuation.
pub open spec fn spec_default_curve_tricrypto_gauge() -> Address {
    Address { hi: 0x97e2_768e, lo: 0x8e73_511c_a874_545d_c5ff_8067_eb19_b787 }
}

/// The reward gauge of the stableswap pool. Stored, and read by no valuation.
#[verifier::when_used_as_spec(spec_default_curve_tricrypto_gauge)]
pub fn default_curve_tricrypto_gauge() -> (r: Address)
    ensures
        r == spec_default_curve_tricrypto_gauge(),
{
    proof {
        reveal_strlit("97E2768e8E73511cA874545DC5Ff8067eB19B787");
        reveal_with_fuel(be_value, 17);
        let text = "97E2768e8E73511cA874545DC5Ff8067eB19B787"@;
        assert(all_hex_digits(text));
        let bytes = hex_bytes(text).unwrap();
        assert(be_value(bytes.subrange(0, 4)) == 0x97e2_768e);
        assert(be_value(bytes.subrange(4, 20)) == 0x8e73_511c_a874_545d_c5ff_8067_eb19_b787);
    }
    parse("97E2768e8E73511cA874545DC5Ff8067eB19B787")
}

/// Wrapped ether: the reference asset of the lending adapter.
pub open spec fn spec_weth() -> Address {
    Address { hi: 0x82af_4944, lo: 0x7d8a_07e3_bd95_bd0d_56f3_5241_523f_bab1 }
}

/// Wrapped ether: the reference asset of the lending adapter.
#[verifier::when_used_as_spec(spec_weth)]
pub fn weth() -> (r: Address)
    ensures
        r == spec_weth(),
{
    proof {
        reveal_strlit("82aF49447D8a07e3bd95BD0d56f35241523fBab1");
        reveal_with_fuel(be_value, 17);
        let text = "82aF49447D8a07e3bd95BD0d56f35241523fBab1"@;
        assert(all_hex_digits(text));
        let bytes = hex_bytes(text).unwrap();
        assert(be_value(bytes.subrange(0, 4)) == 0x82af_4944);
        assert(be_value(bytes.subrange(4, 20)) == 0x7d8a_07e3_bd95_bd0d_56f3_5241_523f_bab1);
    }
    parse("82aF49447D8a07e3bd95BD0d56f35241523fBab1")
}

/// The price feed registered for wrapped ether at deployment.
pub open spec fn spec_weth_usd_feed() -> Address {
    Address { hi: 0x639f_e6ab, lo: 0x55c9_21f7_4e7f_ac1e_e960_c0b6_293b_a612 }
}

/// The price feed registered for wrapped ether at deployment.
#[verifier::when_used_as_spec(spec_weth_usd_feed)]
pub fn weth_usd_feed() -> (r: Address)
    ensures
        r == spec_weth_usd_feed(),
{
    proof {
        reveal_strlit("639Fe6ab55C921f74e7fac1ee960C0b6293ba612");
        reveal_with_fuel(be_value, 17);
        let text = "639Fe6ab55C921f74e7fac1ee960C0b6293ba612"@;
        assert(all_hex_digits(text));
        let bytes = hex_bytes(text).unwrap();
        assert(be_value(bytes.subrange(0, 4)) == 0x639f_e6ab);
        assert(be_value(bytes.subrange(4, 20)) == 0x55c9_21f7_4e7f_ac1e_e960_c0b6_293b_a612);
    }
    parse("639Fe6ab55C921f74e7fac1ee960C0b6293ba612")
}

/// The USD stablecoin that has a price feed from deployment on.
pub open spec fn spec_usdc() -> Address {
    Address { hi: 0xaf88_d065, lo: 0xe77c_8cc2_2393_27c5_edb3_a432_268e_5831 }
}

/// The USD stablecoin that has a price feed from deployment on.
#[verifier::when_used_as_spec(spec_usdc)]
pub fn usdc() -> (r: Address)
    ensures
        r == spec_usdc(),
{
    proof {
        reveal_strlit("af88d065e77c8cC2239327C5EDb3A432268e5831");
        reveal_with_fuel(be_value, 17);
        let text = "af88d065e77c8cC2239327C5EDb3A432268e5831"@;
        assert(all_hex_digits(text));
        let bytes = hex_bytes(text).unwrap();
        assert(be_value(bytes.subrange(0, 4)) == 0xaf88_d065);
        assert(be_value(bytes.subrange(4, 20)) == 0xe77c_8cc2_2393_27c5_edb3_a432_268e_5831);
    }
    parse("af88d065e77c8cC2239327C5EDb3A432268e5831")
}

/// The price feed registered for the USD stablecoin at deployment.
pub open spec fn spec_usdc_usd_feed() -> Address {
    Address { hi: 0x5083_4f31, lo: 0x6375_8fcc_1df9_973b_6e91_f0f0_f043_4ad3 }
}

/// The price feed registered for the USD stablecoin at deployment.
#[verifier::when_used_as_spec(spec_usdc_usd_feed)]
pub fn usdc_usd_feed() -> (r: Address)
    ensures
        r == spec_usdc_usd_feed(),
{
    proof {
        reveal_strlit("50834F3163758fcC1Df9973b6e91f0F0F0434aD3");
        reveal_with_fuel(be_value, 17);
        let text = "50834F3163758fcC1Df9973b6e91f0F0F0434aD3"@;
        assert(all_hex_digits(text));
        let bytes = hex_bytes(text).unwrap();
        assert(be_value(bytes.subrange(0, 4)) == 0x5083_4f31);
        assert(be_value(bytes.subrange(4, 20)) == 0x6375_8fcc_1df9_973b_6e91_f0f0_f043_4ad3);
    }
    parse("50834F3163758fcC1Df9973b6e91f0F0F0434aD3")
}

} // verus!
