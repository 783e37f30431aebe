use burn_rewards::gateway::{encode, encode_all, BLOCK_SIZE};
use burn_rewards::model::Effect;

fn s(x: &str) -> String {
    x.to_string()
}

fn text(payload: &[u8]) -> String {
    String::from_utf8(payload.to_vec()).unwrap()
}

#[test]
fn destroy_is_a_padded_batch_burn_for_the_collection() {
    let e = Effect::Destroy { collection: s("coll"), code_hash: s("coll-hash"), token_ids: vec![s("1"), s("2"), s("3")] };
    let m = encode(&e).unwrap();
    assert_eq!(m.contract_addr, "coll");
    assert_eq!(m.code_hash, "coll-hash");
    assert_eq!(m.payload.len(), 256);
    let t = text(&m.payload);
    assert_eq!(t.trim_end(), "{\"batch_burn_nft\":{\"burns\":[{\"token_ids\":[\"1\",\"2\",\"3\"],\"memo\":null}],\"padding\":null}}");
}

#[test]
fn transfer_names_recipient_and_amount() {
    let e = Effect::Transfer { asset: s("shill"), code_hash: s("shill-hash"), amount: 15, destination: s("alice") };
    let m = encode(&e).unwrap();
    assert_eq!(m.contract_addr, "shill");
    assert_eq!(m.code_hash, "shill-hash");
    assert_eq!(m.payload.len() % 256, 0);
    let t = text(&m.payload);
    assert!(t.starts_with("{\"transfer\":{"));
    assert!(t.contains("\"recipient\":\"alice\""));
    assert!(t.contains("\"amount\":\"15\""));
}

#[test]
fn registration_announces_batch_receive() {
    let e = Effect::RegisterReceive { collection: s("coll"), code_hash: s("coll-hash"), callback_code_hash: s("own-hash") };
    let m = encode(&e).unwrap();
    assert_eq!(m.contract_addr, "coll");
    assert_eq!(m.code_hash, "coll-hash");
    let t = text(&m.payload);
    assert!(t.starts_with("{\"register_receive_nft\":{"));
    assert!(t.contains("\"code_hash\":\"own-hash\""));
    assert!(t.contains("\"also_implements_batch_receive_nft\":true"));
}

#[test]
fn viewing_key_message_carries_the_key() {
    let e = Effect::SetViewingKey { asset: s("shill"), code_hash: s("shill-hash"), key: s("secret-key") };
    let m = encode(&e).unwrap();
    assert_eq!(m.contract_addr, "shill");
    assert_eq!(m.code_hash, "shill-hash");
    let t = text(&m.payload);
    assert!(t.starts_with("{\"set_viewing_key\":{"));
    assert!(t.contains("\"key\":\"secret-key\""));
}

#[test]
fn payloads_are_padded_to_the_block_size() {
    assert_eq!(BLOCK_SIZE, 256);
    let long_key: String = std::iter::repeat('k').take(300).collect();
    let e = Effect::SetViewingKey { asset: s("shill"), code_hash: s("h"), key: long_key.clone() };
    let m = encode(&e).unwrap();
    assert_eq!(m.payload.len(), 512);
    assert_eq!(text(&m.payload).trim_end(), format!("{{\"set_viewing_key\":{{\"key\":\"{}\",\"padding\":null}}}}", long_key));
}

#[test]
fn encode_all_keeps_the_order() {
    let effects = vec![
        Effect::Destroy { collection: s("coll"), code_hash: s("coll-hash"), token_ids: vec![s("9")] },
        Effect::Transfer { asset: s("shill"), code_hash: s("shill-hash"), amount: 5, destination: s("bob") },
    ];
    let messages = encode_all(&effects).unwrap();
    assert_eq!(messages.len(), 2);
    assert_eq!(messages[0], encode(&effects[0]).unwrap());
    assert_eq!(messages[1], encode(&effects[1]).unwrap());
    assert_eq!(messages[0].contract_addr, "coll");
    assert_eq!(messages[1].contract_addr, "shill");
    assert!(encode_all(&vec![]).unwrap().is_empty());
}
