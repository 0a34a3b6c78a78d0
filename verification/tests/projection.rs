use parity_scale_codec::{Compact, Decode, Encode};
use subxt::events::found;
use subxt::{Call, Encoded, Event, RawEvent};

#[derive(Debug, PartialEq)]
struct Transfer {
    from: [u8; 32],
    to: [u8; 32],
    amount: u128,
}

impl Transfer {
    fn encode(&self) -> Vec<u8> {
        let mut bytes = self.from.encode();
        self.to.encode_to(&mut bytes);
        Compact(self.amount).encode_to(&mut bytes);
        bytes
    }
}

impl Event for Transfer {
    const PALLET: &'static str = "Balances";
    const EVENT: &'static str = "Transfer";

    fn decode(data: &[u8]) -> Result<Self, parity_scale_codec::Error> {
        let input = &mut &data[..];
        let from = <[u8; 32]>::decode(input)?;
        let to = <[u8; 32]>::decode(input)?;
        let amount = Compact::<u128>::decode(input)?;
        Ok(Transfer { from, to, amount: amount.0 })
    }
}

struct Remark;

impl Call for Remark {
    const PALLET: &'static str = "System";
    const FUNCTION: &'static str = "remark";
}

fn raw(pallet: &str, variant: &str, data: Vec<u8>) -> RawEvent {
    RawEvent {
        pallet: pallet.to_string(),
        pallet_index: 5,
        variant: variant.to_string(),
        variant_index: 2,
        data,
    }
}

#[test]
fn matching_names_decode_the_data() {
    let transfer = Transfer { from: [1; 32], to: [2; 32], amount: 1 << 100 };
    let event = raw("Balances", "Transfer", transfer.encode());
    assert_eq!(event.as_event::<Transfer>(), Ok(Some(transfer)));
}

#[test]
fn other_names_give_none_whatever_the_data() {
    let good = Transfer { from: [1; 32], to: [2; 32], amount: 7 }.encode();
    for data in [good, vec![], vec![0xff; 3]] {
        assert_eq!(raw("Balances", "Deposit", data.clone()).as_event::<Transfer>(), Ok(None));
        assert_eq!(raw("System", "Transfer", data.clone()).as_event::<Transfer>(), Ok(None));
        assert_eq!(raw("balances", "Transfer", data.clone()).as_event::<Transfer>(), Ok(None));
        assert_eq!(raw("Transfer", "Balances", data.clone()).as_event::<Transfer>(), Ok(None));
        assert_eq!(raw("", "", data).as_event::<Transfer>(), Ok(None));
    }
}

#[test]
fn matching_names_with_bad_data_are_an_error() {
    assert!(raw("Balances", "Transfer", vec![1, 2, 3]).as_event::<Transfer>().is_err());
    assert!(raw("Balances", "Transfer", vec![]).as_event::<Transfer>().is_err());
}

#[test]
fn found_wraps_what_was_decoded() {
    assert_eq!(found(Ok(5u8)), Ok(Some(5u8)));
    let error = u8::decode(&mut &[][..]).unwrap_err();
    assert_eq!(found::<u8>(Err(error.clone())), Err(error));
}

#[test]
fn is_event_compares_both_names() {
    assert!(Transfer::is_event("Balances", "Transfer"));
    assert!(!Transfer::is_event("Balances", "transfer"));
    assert!(!Transfer::is_event("Balance", "Transfer"));
    assert!(!Transfer::is_event("Transfer", "Balances"));
    assert!(!Transfer::is_event("", ""));
}

#[test]
fn is_call_compares_both_names() {
    assert!(Remark::is_call("System", "remark"));
    assert!(!Remark::is_call("System", "remark_with_event"));
    assert!(!Remark::is_call("system", "remark"));
}

#[test]
fn encoded_bytes_stand_for_themselves() {
    assert_eq!(Encoded(vec![1, 2, 3]).encode(), vec![1, 2, 3]);
    assert_eq!(Encoded(vec![]).encode(), Vec::<u8>::new());
}
