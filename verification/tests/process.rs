use hello_counter::instruction::HelloInstruction;
use hello_counter::{process_instruction, GreetingAccount, ProcessError};

#[test]
fn test_sanity() {
    let program_id: Vec<u8> = vec![0; 32];
    let owner: Vec<u8> = vec![0; 32];
    let mut data: Vec<u8> = vec![0; 4];

    let arr = u32::to_le_bytes(100);
    println!("arr of bytes is {:?}", arr);
    let mut instruction_data: [u8; 5] = [2; 5];
    for i in 0..4 {
        instruction_data[i + 1] = arr[i];
    }

    assert_eq!(GreetingAccount::try_from_slice(&data).unwrap().counter, 0);

    process_instruction(&program_id, &owner, &mut data, &instruction_data).unwrap();
    assert_eq!(GreetingAccount::try_from_slice(&data).unwrap().counter, 100);

    let instruction_data = [0u8; 5];
    process_instruction(&program_id, &owner, &mut data, &instruction_data).unwrap();
    assert_eq!(GreetingAccount::try_from_slice(&data).unwrap().counter, 101);

    let instruction_data = [1u8; 5];
    process_instruction(&program_id, &owner, &mut data, &instruction_data).unwrap();
    assert_eq!(GreetingAccount::try_from_slice(&data).unwrap().counter, 100);
}

#[test]
fn test_decrement_underflow_faults_and_leaves_record() {
    let program_id: Vec<u8> = vec![0; 32];
    let owner: Vec<u8> = vec![0; 32];
    let mut data: Vec<u8> = vec![0; 4];

    let r = process_instruction(&program_id, &owner, &mut data, &[1u8; 5]);
    assert_eq!(r, Err(ProcessError::ArithmeticFault));
    assert_eq!(data, vec![0, 0, 0, 0]);
    assert_eq!(GreetingAccount::try_from_slice(&data).unwrap().counter, 0);
}

#[test]
fn test_increment_overflow_faults_and_leaves_record() {
    let program_id: Vec<u8> = vec![0; 32];
    let owner: Vec<u8> = vec![0; 32];
    let mut data: Vec<u8> = vec![0xff; 4];

    let r = process_instruction(&program_id, &owner, &mut data, &[0u8]);
    assert_eq!(r, Err(ProcessError::ArithmeticFault));
    assert_eq!(data, vec![0xff, 0xff, 0xff, 0xff]);
}

#[test]
fn test_owner_mismatch_never_mutates() {
    let program_id: Vec<u8> = vec![0; 32];
    let owner: Vec<u8> = vec![1; 32];
    let mut data: Vec<u8> = vec![7, 0, 0, 0];

    for instruction_data in [
        vec![0u8],
        vec![1u8],
        vec![2u8, 100, 0, 0, 0],
    ] {
        let r = process_instruction(&program_id, &owner, &mut data, &instruction_data);
        assert_eq!(r, Err(ProcessError::IncorrectOwner));
        assert_eq!(data, vec![7, 0, 0, 0]);
    }
}

#[test]
fn test_invalid_instruction_never_mutates() {
    let program_id: Vec<u8> = vec![0; 32];
    let owner: Vec<u8> = vec![0; 32];
    let mut data: Vec<u8> = vec![7, 0, 0, 0];

    for instruction_data in [vec![], vec![3u8], vec![2u8, 1, 2, 3]] {
        let r = process_instruction(&program_id, &owner, &mut data, &instruction_data);
        assert_eq!(r, Err(ProcessError::InvalidInstructionData));
        assert_eq!(data, vec![7, 0, 0, 0]);
    }
}

#[test]
fn test_malformed_record_fails() {
    let program_id: Vec<u8> = vec![0; 32];
    let owner: Vec<u8> = vec![0; 32];

    let mut short: Vec<u8> = vec![0; 3];
    let r = process_instruction(&program_id, &owner, &mut short, &[0u8]);
    assert_eq!(r, Err(ProcessError::MalformedRecord));
    assert_eq!(short, vec![0, 0, 0]);

    let mut long: Vec<u8> = vec![0; 5];
    let r = process_instruction(&program_id, &owner, &mut long, &[0u8]);
    assert_eq!(r, Err(ProcessError::MalformedRecord));
    assert_eq!(long, vec![0, 0, 0, 0, 0]);
}

#[test]
fn test_set_value_twice_is_idempotent() {
    let program_id: Vec<u8> = vec![0; 32];
    let owner: Vec<u8> = vec![0; 32];
    let mut data: Vec<u8> = vec![9, 9, 9, 9];
    let instruction_data = HelloInstruction::SetValue(123456).pack();

    process_instruction(&program_id, &owner, &mut data, &instruction_data).unwrap();
    let once = data.clone();
    process_instruction(&program_id, &owner, &mut data, &instruction_data).unwrap();
    assert_eq!(data, once);
    assert_eq!(
        GreetingAccount::try_from_slice(&data).unwrap().counter,
        123456
    );
}

#[test]
fn test_record_serialize_round_trip() {
    let rec = GreetingAccount { counter: 258 };
    let bytes = rec.serialize();
    assert_eq!(bytes, vec![2, 1, 0, 0]);
    assert_eq!(GreetingAccount::try_from_slice(&bytes), Ok(rec));

    assert_eq!(
        GreetingAccount::try_from_slice(&[1, 2, 3]),
        Err(ProcessError::MalformedRecord)
    );
}

#[test]
fn test_apply_commands() {
    let mut rec = GreetingAccount { counter: 100 };
    assert_eq!(rec.apply(&HelloInstruction::Increment), Ok(()));
    assert_eq!(rec.counter, 101);
    assert_eq!(rec.apply(&HelloInstruction::Decrement), Ok(()));
    assert_eq!(rec.counter, 100);
    assert_eq!(rec.apply(&HelloInstruction::SetValue(0)), Ok(()));
    assert_eq!(rec.counter, 0);
    assert_eq!(
        rec.apply(&HelloInstruction::Decrement),
        Err(ProcessError::ArithmeticFault)
    );
    assert_eq!(rec.counter, 0);
}
