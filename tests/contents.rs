use jit_buffer::buffer::ExecutableBuffer;
use jit_buffer::layout::{BufferError, Region};

fn fresh(pages: i64) -> ExecutableBuffer {
    ExecutableBuffer::new(Region::new(pages, 0x40_0000).unwrap())
}

#[test]
fn fresh_buffer_holds_return_opcode_everywhere() {
    let b = fresh(2);
    assert_eq!(b.size_bytes(), 8192);
    assert_eq!(b.base(), 0x40_0000);
    assert_eq!(b.region().page_count(), 2);
    for i in 0..b.size_bytes() {
        assert_eq!(b.get(i), 0xC3);
    }
}

#[test]
fn set_then_get_round_trip() {
    let mut b = fresh(1);
    for (i, v) in [(0usize, 0u8), (1, 0x48), (4095, 0xFF), (100, 0xC3)] {
        b.set(i, v);
        assert_eq!(b.get(i), v);
    }
    assert_eq!(b.get(2), 0xC3);
    assert_eq!(b.get(4094), 0xC3);
}

#[test]
fn checked_access_past_the_end() {
    let mut b = fresh(1);
    assert_eq!(b.try_get(4095), Ok(0xC3));
    assert_eq!(b.try_get(4096), Err(BufferError::OutOfBounds));
    assert_eq!(b.try_set(4096, 1), Err(BufferError::OutOfBounds));
    assert_eq!(b.try_set(usize::MAX, 1), Err(BufferError::OutOfBounds));
    assert_eq!(b.try_set(10, 0x90), Ok(()));
    assert_eq!(b.try_get(10), Ok(0x90));
}

#[test]
fn load_immediate_image() {
    let mut b = fresh(1);
    let code = [0x48u8, 0xC7, 0xC0, 0x30, 0x00, 0x00, 0x00];
    for (i, v) in code.iter().enumerate() {
        b.set(i, *v);
    }
    for (i, v) in code.iter().enumerate() {
        assert_eq!(b.get(i), *v);
    }
    assert_eq!(b.get(7), 0xC3);
}

#[test]
fn write_bytes_places_code_at_offset() {
    let mut b = fresh(1);
    let code = [0x48u8, 0xC7, 0xC0, 0x30, 0x00, 0x00, 0x00];
    assert_eq!(b.write_bytes(0, &code), Ok(()));
    for i in 0..7 {
        assert_eq!(b.get(i), code[i]);
    }
    assert_eq!(b.get(7), 0xC3);
    assert_eq!(b.write_bytes(4090, &[1, 2, 3, 4, 5, 6]), Ok(()));
    assert_eq!(b.get(4089), 0xC3);
    assert_eq!(b.get(4090), 1);
    assert_eq!(b.get(4095), 6);
}

#[test]
fn write_bytes_past_the_end_writes_nothing() {
    let mut b = fresh(1);
    assert_eq!(b.write_bytes(4090, &[1, 2, 3, 4, 5, 6, 7]), Err(BufferError::OutOfBounds));
    assert_eq!(b.write_bytes(usize::MAX, &[1]), Err(BufferError::OutOfBounds));
    assert_eq!(b.get(4090), 0xC3);
    assert_eq!(b.get(4095), 0xC3);
}
