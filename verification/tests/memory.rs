use nes_core::cpu::memory::Memory;
use nes_core::fault::Fatal;

struct MyVec {
    vec: Vec<u8>,
}

impl Memory for MyVec {
    fn read_byte(&self, addr: u16) -> Result<u8, Fatal> {
        if self.vec.len() > addr as usize {
            Ok(self.vec[addr as usize])
        } else {
            Ok(0)
        }
    }

    fn write_byte(&mut self, addr: u16, value: u8) -> Result<(), Fatal> {
        if self.vec.len() > addr as usize {
            self.vec[addr as usize] = value;
        }
        Ok(())
    }
}

#[test]
fn test_read_word() {
    let mem = MyVec { vec: vec![0x00, 0x01] };
    assert_eq!(mem.read_word(0), Ok(0x0100));
}

#[test]
fn test_write_word() {
    let mut mem = MyVec { vec: vec![0x00, 0x01] };
    assert_eq!(mem.write_word(0, 0x0100), Ok(()));
    assert_eq!(mem.vec, vec![0x00, 0x01]);
}
