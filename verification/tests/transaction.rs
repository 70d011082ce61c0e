use offline_verify::transaction::{Transaction, TransactionKind};
use snarkvm_console::network::TestnetV0;
use std::str::FromStr;

const TESTNET_TRANSACTION_STRING: &str = "{\"type\":\"execute\",\"id\":\"at1jtk8du0xnt5e92v4hxz8ckys22x5s8dwc5y3uejxwrkev7xqny8sh7wz0e\",\"execution\":{\"transitions\":[{\"id\":\"au1y8g2y8fvum3artfj3wqz9yps2u30s4zk6cssaqhg5yj9tpx8eszqn7erjp\",\"program\":\"credits.aleo\",\"function\":\"transfer_public\",\"inputs\":[{\"type\":\"public\",\"id\":\"5728323912539873901463744923106579772849880966232653596587848724800440854698field\",\"value\":\"aleo12tksdptp7hvxly8tkm3um08fvf53qpehsgdgqfvy9pe3sewcq5ysjg5myy\"},{\"type\":\"public\",\"id\":\"5747305006533197425360059474083535488071694934708374669191415686930805801476field\",\"value\":\"10000000000000u64\"}],\"outputs\":[{\"type\":\"future\",\"id\":\"8260514824634633030701492989170989242596854865439089259126466320867563479449field\",\"value\":\"{\\n  program_id: credits.aleo,\\n  function_name: transfer_public,\\n  arguments: [\\n    aleo12tksdptp7hvxly8tkm3um08fvf53qpehsgdgqfvy9pe3sewcq5ysjg5myy,\\n    aleo12tksdptp7hvxly8tkm3um08fvf53qpehsgdgqfvy9pe3sewcq5ysjg5myy,\\n    10000000000000u64\\n  ]\\n}\"}],\"tpk\":\"1443791236595734816721808594797682198514246646666543554175320023762598050716group\",\"tcm\":\"3124189233089316494525019740495817071312710677756667238858579956966409322827field\",\"scm\":\"7147560898329539385845695555565243574844127625207818002552572984487942831128field\"}],\"global_state_root\":\"sr1ekees06ce437zyrpy3xryal7wpfsw2zlsvwrr0rrfv3ywc8ehcrs6mjr2t\",\"proof\":\"proof1qyqsqqqqqqqqqqqpqqqqqqqqqqqdxjp0rrnrukwx66zxzzxv3jtqwqar5qakf590hyt0653vnuqfy0txjz34l3f9747w2v6apf86e9vpq80vgpkfu0663yee9n73g4gym0e9kzg4t7m45rf6336f40t9eqqjhpc0hd3cvsry6r8q20g40qe3lqdr9efumsuew2m54zygyruuej23kzwppzvy4wm0xjd9pmplgz2tt8gdvdvrlggjlhp4jna2w54pqjqjhtj4glv7j97nyad7wsfl0qj9ynpjn7gxc0ypzl2gg36qkn0kj0vtdcr4w28h6g6hr90y5jjfstsqgd7myt58ltve9z6v6p99awkgf4ex9eckv0x0vs8g4wyjf64p4897udd54ceg4km60asqhfqx9szcq2dlhwd7pf6ke53v8st4eamxdk9plsu9e0ueux2tknp73hup28hnjzpjlwje6438ehq6s36fz9tesqzww57da0svmvu7zc72w78pdqvk22w2nur28rvx0vvcvck8acpqrfewcu9xltv5hmzmlnmp8k7lkqpy2ynefnle3qss9d265tz2qu8mkwjq2la5nygvm56jvp0fdjazat0rdt29qjqvefjlq8retaqhqkqzu8nn2hhljhd3nljk4alq4hw5qwhdmz6884sezm8gmcw89w0mhqktyanzlk8p3qfczfk3aawn53up6kus7ygccazpk08ajh3s4t09ajpuz32n7sk2267z292pu40t8syccstzar65gl6hjkn02agruzdp5hlaryl20pvtl45sndxwyhykxzvh8xy07h03vr7qdcnspphqjsrdexvcafj4h00p3tswedj4twgcqca89x062c4ych4ky8dtdvvan5wazqwv3ecqg8qfvj3r842pe2ys8v9x4wz394tnjhxtwwl6g8my88mytt88hhw92ejjuu70375s4eqzpsatd3943y05uuy55nrunntsfx5lrhx8kj46ypj2x6mhgthsqvr43ykrtnpngjdxwqrgcwsh4tpynmrasgp42ffqr9kpyqq2nqjw5r9tddp92d9xzf7x2tu2j2lrruyarxwga3234c0jdfu6lxhezq7upnug7vvx9zq07rv5j3g03vqusptykdy7k7fyfparzgc5gr7maggsl6u3k2xz45ww687prfk8gjcfrmuklax0j9mfpxhr4zy00znh33cfqvqqqqqqqqqqq0q60aqmmdesrr8dm7s6zrqtgkpe6dmptmrl8kj2vna7xdjxqq0g46js4pcy8y50n29g9c3tfzu7syqpluwspydz4jt02gdn5zfcm3kggexkj6lcxe40fm948rdpknl8qq98w452mrkhu4heuxde5gvernsqq9juwjerdc0awzapcvzn49k5kjqv28l94ysud9vr67ukqka7g3epz9l4ng33hdw7xuytxdw4cnknkrld3u2pltxnal2vlwnpjmlv245rqqhqsa8puprxnnmfk70cavtaqqqqw7jtdw\"},\"fee\":{\"transition\":{\"id\":\"au18yekadzq2s5yueclgjrpsn6f5nvz3eeak70yuq06uy0n24adyyys8zx0jk\",\"program\":\"credits.aleo\",\"function\":\"fee_public\",\"inputs\":[{\"type\":\"public\",\"id\":\"3080832180601027935910932515052213391777874370190043796269735911647549813403field\",\"value\":\"51060u64\"},{\"type\":\"public\",\"id\":\"7056660245877277213846039495094519674382305799912855297264489254703531489205field\",\"value\":\"0u64\"},{\"type\":\"public\",\"id\":\"3789927067447441635169953860512561549280331988162246271370367448733014580560field\",\"value\":\"650363021925585411164846421962713294200755326234354059965840329019131016063field\"}],\"outputs\":[{\"type\":\"future\",\"id\":\"3699459455385485673291537203077577582216687613837689580466741718132804211508field\",\"value\":\"{\\n  program_id: credits.aleo,\\n  function_name: fee_public,\\n  arguments: [\\n    aleo12tksdptp7hvxly8tkm3um08fvf53qpehsgdgqfvy9pe3sewcq5ysjg5myy,\\n    51060u64\\n  ]\\n}\"}],\"tpk\":\"1902721968283688077927786421906942930560999184584720592100304140820154629718group\",\"tcm\":\"3387410122830265412442587649752217196999381457869829183774696773320911233244field\",\"scm\":\"4938929615252521064092020685272661923677655998269959268215473396901445108922field\"},\"global_state_root\":\"sr1ekees06ce437zyrpy3xryal7wpfsw2zlsvwrr0rrfv3ywc8ehcrs6mjr2t\",\"proof\":\"proof1qyqsqqqqqqqqqqqpqqqqqqqqqqqtrgzk2uqwwsr24fj4eh4rxrx0qwvjvppspeuy2wkr8ff9eczmkgm9w9mm73kkxzsy7954l72rmggqqx3nqehqtx95ravdd77p8pfv9rfneryydcym7fzfr2cxv8rrcuwlwea2l5jnm3xf82q0acssusk9jqv6ru2may6wn7wflvmygxxnpgwvjet45lm3ual5l4drk6jx8a72pzcsdj7y908gmlnpky9ld8y7suqf8crd5qtr80awze8gqrqe4ac6l5xczk8uypnmmy8yk5achh4vu0yjr9ac7j6een7ncydnc258d8vq647j2k85us4n569lzcxkxqvrxv6ltnxs6skem636c20es32zej38v8a059dld6sh272tl9dhnjygzj2ye3pn88ltyyu8cnf9qgztejmjatjupfx5a84tjzrlkx95vzk9jwzgm82wg2u74klmy5ntjhvas9xmn89uslc59a0772emk3t7s6q2hh35pku6ttj9sh2p53442fry2q9wyxtrgkqcxmw7av7e94gv5qrl94lvyt27lttkfrfu8mep4wnd5pc7w4dtymehvv2n9fr949jp0wph2r4gw7exylwrhzxc62p8x7qa6u30ms800fehy0g46nct8yauv0esnxc0ptjz03nvluxxy5ewt4hxhft74v7av0wgxjq8tg2577cqn2qevsv4rsjeqzz2je3y6xv02svpepq2278sm4uln9j3dqppf5qjzdszqclrxj7lmxp0667hmt9zcxhf4tu4nnyvrej7x7u5ckkqsryqump5tj60sgpqe7mw7v3z5la9a0adptcna23twhqheles50edz8wh4c6ucgfws8uu9vquahdx3yyvqfxg7mcfnv2f3a6awnj42v6srylr4tpl3sk88nclsfdqt3k82lqsqw5dts5pajkpgh356gpszcs00tetpmwwk5nu27qrnpx9dzlqp6hvgunlzlkh4wzm3jyzg7m8quxw3herlzr44rme6j2qvrtlp35mc5qpsf4cywd574525f2zg55zgytc57pg26gfavdhznn4w2ra5mwjfvygss5ydv6rwgnfdwwqlmtyphepnm24rawq7772vcryq7dumfl8tnk2hfatx030fcuf66fmu00sqjepf0vff488vefwxamq0zk85j5ndze4y3944fylkg6xq8csqsgzqvqqqqqqqqqqpjm974l05g8e9yhn9k7cnugcdef6grqmjlrjzhapyy8q54gtst3qesupus8xnl52w9vly7c9sh7cqqqrwz048g6lsr356jzmw8j7qrcz6r84lkgql4c3s7k32dsh9ttq4tq4rkkddr077gxe4s96lky2q9upq9peg9lkdx0qlvshprkp5ftj9cdrd2x8mfm5jp9l3fr889u6ghfq6j9kxgcm8pnfagdekgqgat0ts95xw9vpzwva2zq3m8p0h0nxnvhq9ktc3xdckpz3g2tq85aka7tjqyqqe9rze3\"}}";

const TRANSACTION_ID: &str = "at1jtk8du0xnt5e92v4hxz8ckys22x5s8dwc5y3uejxwrkev7xqny8sh7wz0e";

type TransactionNative = snarkvm_ledger_block::Transaction<TestnetV0>;

#[test]
fn test_transaction_string_constructor_and_accessor_methods() {
    let transaction = Transaction::from_string(TESTNET_TRANSACTION_STRING).unwrap();
    let transaction_id = transaction.transaction_id();
    let transaction_type = transaction.transaction_type();
    let recovered_string = transaction.to_string();
    assert_eq!(transaction_id, TRANSACTION_ID);
    assert_eq!(transaction_type, "execute");
    assert_eq!(recovered_string, TESTNET_TRANSACTION_STRING);

    // Test to and from round trip
    let transaction_native = TransactionNative::from_str(TESTNET_TRANSACTION_STRING).unwrap();
    let transaction_deconstruction = TransactionNative::from_str(&transaction.clone().to_string()).unwrap();
    assert_eq!(transaction_native, transaction_deconstruction);
    let transaction_from_native = Transaction::from_string(&transaction_native.to_string()).unwrap();
    assert_eq!(transaction, transaction_from_native);
}

#[test]
fn transaction_is_read_by_from_str_too() {
    let transaction: Transaction = TESTNET_TRANSACTION_STRING.parse().unwrap();
    assert_eq!(transaction, Transaction::from_string(TESTNET_TRANSACTION_STRING).unwrap());
    assert_eq!("".parse::<Transaction>().err(), Transaction::from_string("").err());
    assert!(Transaction::from_str(TRANSACTION_ID).is_err());
}

#[test]
fn transaction_reads_back_as_itself() {
    let transaction = Transaction::from_string(TESTNET_TRANSACTION_STRING).unwrap();
    let again = Transaction::from_string(&transaction.to_string()).unwrap();
    assert_eq!(again, transaction);
    assert_eq!(again.to_string(), transaction.to_string());
}

#[test]
fn transaction_is_held_in_canonical_form() {
    let spaced = TESTNET_TRANSACTION_STRING.replace("\"type\":", " \"type\" : ");
    assert_ne!(spaced, TESTNET_TRANSACTION_STRING);
    let transaction = Transaction::from_string(&spaced).unwrap();
    assert_eq!(transaction.to_string(), TESTNET_TRANSACTION_STRING);
    assert_eq!(transaction.as_str(), TESTNET_TRANSACTION_STRING);
}

#[test]
fn transaction_kind_is_that_of_the_variant() {
    let transaction = Transaction::from_string(TESTNET_TRANSACTION_STRING).unwrap();
    assert_eq!(transaction.kind(), TransactionKind::Execute);
    assert_eq!(TransactionKind::Deploy.name(), "deploy");
    assert_eq!(TransactionKind::Execute.name(), "execute");
    assert_eq!(TransactionKind::Fee.name(), "fee");
}

#[test]
fn fee_transaction_is_of_kind_fee() {
    let native = TransactionNative::from_str(TESTNET_TRANSACTION_STRING).unwrap();
    let fee = native.fee_transition().unwrap();
    let fee_transaction = TransactionNative::from_fee(fee).unwrap();
    let transaction = Transaction::from_string(&fee_transaction.to_string()).unwrap();
    assert_eq!(transaction.kind(), TransactionKind::Fee);
    assert_eq!(transaction.transaction_type(), "fee");
    assert_eq!(transaction.transaction_id(), fee_transaction.id().to_string());
    assert_ne!(transaction.transaction_id(), TRANSACTION_ID);
}

#[test]
fn text_that_is_no_transaction_is_refused() {
    assert!(Transaction::from_string("").is_err());
    assert!(Transaction::from_string("{}").is_err());
    assert!(Transaction::from_string(TRANSACTION_ID).is_err());
    // The id of another transaction does not fit what the transaction holds.
    let other_id = "at1rh04nydu2m07n9wm3pugmlaqh7775lfuawa86ed4eymv2q9wkc9qahtx66";
    let tampered = TESTNET_TRANSACTION_STRING.replace(TRANSACTION_ID, other_id);
    assert_ne!(tampered, TESTNET_TRANSACTION_STRING);
    assert!(Transaction::from_string(&tampered).is_err());
}
