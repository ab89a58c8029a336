use chain_extension::{DispatchError, Environment, FixedDecode, HostRuntime, InMemoryHost};

fn host_with(memory: Vec<u8>, gas: u64) -> InMemoryHost {
    InMemoryHost::new(memory, gas)
}

#[test]
fn val_accessors_return_arguments_verbatim() {
    let env = Environment::new(host_with(vec![], 0), 11, 22, 33, 44);
    let env = env.only_in();
    assert_eq!(env.val0(), 11);
    assert_eq!(env.val1(), 22);
    assert_eq!(env.val2(), 33);
    assert_eq!(env.val3(), 44);
}

#[test]
fn prim_in_buf_out_reads_integer_inputs() {
    let env = Environment::new(host_with(vec![], 0), 7, 9, 100, 104);
    let env = env.prim_in_buf_out();
    assert_eq!(env.val0(), 7);
    assert_eq!(env.val1(), 9);
}

#[test]
fn charge_weight_debits_budget() {
    let env = Environment::new(host_with(vec![], 10), 0, 0, 0, 0);
    let mut env = env.only_in();
    assert_eq!(env.charge_weight(7), Ok(()));
    let host = env.into_runtime();
    assert_eq!(host.remaining_gas(), 3);
}

#[test]
fn charge_weight_accumulates_and_failure_keeps_earlier_debits() {
    let env = Environment::new(host_with(vec![], 10), 0, 0, 0, 0);
    let mut env = env.only_in();
    assert_eq!(env.charge_weight(7), Ok(()));
    assert_eq!(env.charge_weight(4), Err(DispatchError::InsufficientWeight));
    let host = env.into_runtime();
    assert_eq!(host.remaining_gas(), 3);
}

#[test]
fn charge_weight_exact_budget_succeeds() {
    let env = Environment::new(host_with(vec![], 5), 0, 0, 0, 0);
    let mut env = env.only_in();
    assert_eq!(env.charge_weight(5), Ok(()));
    assert_eq!(env.charge_weight(1), Err(DispatchError::InsufficientWeight));
    let host = env.into_runtime();
    assert_eq!(host.remaining_gas(), 0);
}

#[test]
fn ext_reaches_the_host_runtime() {
    let env = Environment::new(host_with(vec![], 10), 0, 0, 0, 0);
    let mut env = env.only_in();
    assert_eq!(env.ext().charge_gas(4), Ok(()));
    let host = env.into_runtime();
    assert_eq!(host.remaining_gas(), 6);
}

#[test]
fn in_len_returns_declared_input_length() {
    let env = Environment::new(host_with(vec![0; 16], 0), 4, 12, 0, 0);
    let env = env.buf_in_buf_out();
    assert_eq!(env.in_len(), 12);
}

#[test]
fn read_clamps_to_max_len_then_to_declared_length() {
    // Declared input: length 10 at pointer 100.
    let mut memory = vec![0u8; 110];
    for i in 0..10 {
        memory[100 + i] = (i + 1) as u8;
    }
    let env = Environment::new(host_with(memory.clone(), 0), 100, 10, 0, 0);
    let env = env.buf_in_buf_out();
    assert_eq!(env.read(5), Ok(vec![1, 2, 3, 4, 5]));

    // A fresh view of the same call yields all 10 bytes under a larger bound.
    let env = Environment::new(host_with(memory, 0), 100, 10, 0, 0);
    let env = env.buf_in_buf_out();
    assert_eq!(env.read(20), Ok(vec![1, 2, 3, 4, 5, 6, 7, 8, 9, 10]));
}

#[test]
fn read_zero_max_len_yields_empty() {
    let env = Environment::new(host_with(vec![5, 6, 7], 0), 0, 3, 0, 0);
    let env = env.buf_in_buf_out();
    assert_eq!(env.read(0), Ok(vec![]));
}

#[test]
fn read_out_of_bounds_is_a_memory_fault() {
    let env = Environment::new(host_with(vec![5, 6, 7], 0), 2, 2, 0, 0);
    let env = env.buf_in_buf_out();
    assert_eq!(env.read(2), Err(DispatchError::MemoryAccessFault));
}

#[test]
fn read_into_fills_and_shrinks_the_buffer() {
    let env = Environment::new(host_with(vec![9, 8, 7, 6], 0), 1, 3, 0, 0);
    let env = env.buf_in_buf_out();
    let mut buffer = vec![0u8; 8];
    assert_eq!(env.read_into(&mut buffer), Ok(()));
    assert_eq!(buffer, vec![8, 7, 6]);
}

#[test]
fn read_into_clamps_to_buffer_length() {
    let env = Environment::new(host_with(vec![9, 8, 7, 6], 0), 1, 3, 0, 0);
    let env = env.buf_in_buf_out();
    let mut buffer = vec![0u8; 2];
    assert_eq!(env.read_into(&mut buffer), Ok(()));
    assert_eq!(buffer, vec![8, 7]);
}

#[test]
fn read_into_out_of_bounds_leaves_buffer_unchanged() {
    let env = Environment::new(host_with(vec![9, 8], 0), 1, 3, 0, 0);
    let env = env.buf_in_buf_out();
    let mut buffer = vec![42u8; 4];
    assert_eq!(env.read_into(&mut buffer), Err(DispatchError::MemoryAccessFault));
    assert_eq!(buffer, vec![42u8; 4]);
}

#[test]
fn read_as_decodes_a_little_endian_u32() {
    let env = Environment::new(host_with(vec![0xEF, 0xBE, 0xAD, 0xDE], 0), 0, 4, 0, 0);
    let mut env = env.buf_in_buf_out();
    let value: Result<u32, DispatchError> = env.read_as();
    assert_eq!(value, Ok(0xDEADBEEF));
}

#[test]
fn read_as_ignores_bytes_past_the_fixed_size() {
    let env = Environment::new(host_with(vec![1, 0, 0, 0, 0xFF, 0xFF], 0), 0, 6, 0, 0);
    let mut env = env.buf_in_buf_out();
    let value: Result<u32, DispatchError> = env.read_as();
    assert_eq!(value, Ok(1));
}

#[test]
fn read_as_short_input_is_a_decode_failure() {
    let env = Environment::new(host_with(vec![1, 2, 3], 0), 0, 3, 0, 0);
    let mut env = env.buf_in_buf_out();
    let value: Result<u32, DispatchError> = env.read_as();
    assert_eq!(value, Err(DispatchError::DecodeFailure));
}

#[test]
fn read_as_out_of_bounds_is_a_memory_fault() {
    let env = Environment::new(host_with(vec![1, 2], 0), 1, 4, 0, 0);
    let mut env = env.buf_in_buf_out();
    let value: Result<u32, DispatchError> = env.read_as();
    assert_eq!(value, Err(DispatchError::MemoryAccessFault));
}

#[test]
fn read_as_decodes_u64_and_bool() {
    let env = Environment::new(host_with(vec![2, 0, 0, 0, 0, 0, 0, 0], 0), 0, 8, 0, 0);
    let mut env = env.buf_in_buf_out();
    let value: Result<u64, DispatchError> = env.read_as();
    assert_eq!(value, Ok(2));

    let env = Environment::new(host_with(vec![1], 0), 0, 1, 0, 0);
    let mut env = env.buf_in_buf_out();
    let value: Result<bool, DispatchError> = env.read_as();
    assert_eq!(value, Ok(true));

    let env = Environment::new(host_with(vec![2], 0), 0, 1, 0, 0);
    let mut env = env.buf_in_buf_out();
    let value: Result<bool, DispatchError> = env.read_as();
    assert_eq!(value, Err(DispatchError::DecodeFailure));
}

#[test]
fn fixed_decode_reads_prefixes() {
    let bytes = [0x2A, 0, 0, 0, 9];
    assert_eq!(<u32 as FixedDecode>::decode(&bytes), Ok(42));
    assert_eq!(<bool as FixedDecode>::decode(&[0]), Ok(false));
    assert_eq!(
        <u64 as FixedDecode>::decode(&bytes),
        Err(DispatchError::DecodeFailure)
    );
}

#[test]
fn into_runtime_returns_the_host_and_its_memory() {
    let env = Environment::new(host_with(vec![3, 1, 4], 9), 0, 0, 0, 0);
    let env = env.only_in();
    let host = env.into_runtime();
    assert_eq!(host.remaining_gas(), 9);
    assert_eq!(host.into_memory(), vec![3, 1, 4]);
}
