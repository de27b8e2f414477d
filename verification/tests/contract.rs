use arbi_transfer::address::parse_address;
use arbi_transfer::contract::check_contract_deployed;
use arbi_transfer::error::TransferError;

const WETH: &str = "0x802cc0f559ebc79da798bf3f3bab44141a1a06ed";
const ARBITRUM_SEPOLIA: u64 = 421_614;

#[test]
fn empty_code_fails_before_any_method_call() {
    let addr = parse_address(WETH).unwrap();
    let code: Vec<u8> = Vec::new();
    let r = check_contract_deployed(addr, ARBITRUM_SEPOLIA, &code);
    match r {
        Err(TransferError::ContractNotDeployed { address, chain_id }) => {
            assert_eq!(address.bytes, parse_address(WETH).unwrap().bytes);
            assert_eq!(chain_id, ARBITRUM_SEPOLIA);
        }
        _ => panic!("expected a contract-not-deployed failure"),
    }
}

#[test]
fn nonempty_code_passes_the_guard() {
    let addr = parse_address(WETH).unwrap();
    let code: Vec<u8> = vec![0x60, 0x80, 0x60, 0x40];
    let r = check_contract_deployed(addr, ARBITRUM_SEPOLIA, &code);
    assert!(r.is_ok());
    assert_eq!(r.unwrap().bytes, parse_address(WETH).unwrap().bytes);
}
