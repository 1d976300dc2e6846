use shader_layout::decode::{decode, decode_words};
use shader_layout::emit::generate;
use shader_layout::shader;
use shader_layout::stream::{blank, is_well_guarded, MAGIC, NOP};

struct Dice(u64);

impl Dice {
    fn roll(&mut self) -> u32 {
        self.0 = self.0.wrapping_mul(6364136223846793005).wrapping_add(1442695040888963407);
        (self.0 >> 33) as u32
    }

    fn below(&mut self, bound: u32) -> u32 {
        self.roll() % bound
    }

    fn pick(&mut self, choices: &[u32]) -> u32 {
        choices[self.below(choices.len() as u32) as usize]
    }
}

const OPCODES: [u32; 40] = [
    0, 3, 5, 5, 6, 6, 6, 8, 11, 14, 14, 15, 16, 17, 19, 20, 21, 22, 23, 24, 28, 30, 30, 30, 32, 33,
    39, 43, 52, 54, 55, 56, 59, 71, 72, 73, 74, 75, 248, 253,
];

const OPERANDS: [u32; 16] =
    [0, 1, 2, 3, 4, 5, 6, 7, 8, 16, 32, 64, 0x0000_0041, 0x6261_0063, u32::MAX, u32::MAX - 1];

fn instruction(opcode: u32, operands: &[u32]) -> Vec<u32> {
    let mut words = vec![((operands.len() as u32 + 1) << 16) | opcode];
    words.extend_from_slice(operands);
    words
}

fn random_stream(dice: &mut Dice, instructions: u32) -> Vec<u32> {
    let mut words = vec![MAGIC, 0x0001_0000, 0, 16, 0];
    for _ in 0..instructions {
        let opcode = if dice.below(16) == 0 { dice.roll() & 0xffff } else { dice.pick(&OPCODES) };
        let operands = dice.below(5);
        let claimed = if dice.below(24) == 0 { dice.below(8) } else { operands + 1 };
        words.push((claimed << 16) | opcode);
        for _ in 0..operands {
            let operand = if dice.below(12) == 0 { dice.roll() } else { dice.pick(&OPERANDS) };
            words.push(operand);
        }
    }
    words
}

struct Shaper {
    dice: Dice,
    next_id: u32,
}

impl Shaper {
    fn fresh(&mut self) -> u32 {
        if self.dice.below(40) == 0 {
            return self.dice.pick(&[0, 1, 2, u32::MAX, u32::MAX - 1]);
        }
        self.next_id += 1;
        self.next_id
    }

    fn known(&mut self) -> u32 {
        if self.dice.below(30) == 0 {
            return self.dice.pick(&[0, 99, u32::MAX, u32::MAX - 1]);
        }
        1 + self.dice.below(self.next_id + 2)
    }

    fn small(&mut self) -> u32 {
        if self.dice.below(30) == 0 {
            return self.dice.pick(&[7, 1000, u32::MAX]);
        }
        self.dice.below(4)
    }

    fn word(&mut self) -> u32 {
        self.dice.pick(&[0x0000_0061, 0x0063_6261, 0x0000_0000, 0x0050_4d41, 0x6464_6464])
    }

    fn any(&mut self) -> Vec<u32> {
        match self.dice.below(30) {
            0 => instruction(0, &[]),
            1 | 2 => instruction(5, &[self.known(), self.word()]),
            3 | 4 | 5 => instruction(6, &[self.known(), self.small(), self.word()]),
            6 => instruction(6, &[self.known(), self.small(), 0x6161_6161, self.word()]),
            7 => instruction(71, &[self.known(), 2]),
            8 => instruction(71, &[self.known(), 30, self.small()]),
            9 => instruction(72, &[self.known(), self.small(), 35, 16]),
            10 => instruction(73, &[self.fresh()]),
            11 => instruction(74, &[self.known(), self.known(), self.known()]),
            12 => instruction(75, &[self.known(), self.known(), self.small()]),
            13 => instruction(19, &[self.fresh()]),
            14 => instruction(20, &[self.fresh()]),
            15 => instruction(21, &[self.fresh(), 32, self.dice.below(2)]),
            16 => instruction(22, &[self.fresh(), self.dice.pick(&[16, 32, 64])]),
            17 => instruction(23, &[self.fresh(), self.known(), 1 + self.small()]),
            18 => instruction(24, &[self.fresh(), self.known(), 1 + self.small()]),
            19 => instruction(28, &[self.fresh(), self.known(), self.known()]),
            20 => instruction(30, &[self.fresh()]),
            21 => instruction(30, &[self.fresh(), self.known()]),
            22 => instruction(30, &[self.fresh(), self.known(), self.known(), self.known()]),
            23 => instruction(32, &[self.fresh(), self.dice.below(13), self.known()]),
            24 => instruction(39, &[self.known(), self.dice.below(13)]),
            25 => instruction(43, &[self.known(), self.fresh(), self.dice.roll()]),
            26 => instruction(59, &[self.known(), self.fresh(), self.dice.below(13)]),
            27 => {
                let mut body = instruction(54, &[self.known(), self.fresh(), 0, self.known()]);
                body.extend(instruction(248, &[self.fresh()]));
                if self.dice.below(3) == 0 {
                    body.extend(self.any());
                }
                body.extend(instruction(253, &[]));
                if self.dice.below(12) != 0 {
                    body.extend(instruction(56, &[]));
                }
                body
            }
            28 => instruction(56, &[]),
            _ => instruction(5632, &[self.known(), 5635, self.word()]),
        }
    }

    fn stream(&mut self) -> Vec<u32> {
        self.next_id = 0;
        let mut words = vec![MAGIC, 0x0001_0000, 0, 64, 0];
        words.extend(instruction(17, &[1]));
        if self.dice.below(20) != 0 {
            words.extend(instruction(14, &[0, 1]));
        }
        for _ in 0..self.dice.below(14) {
            let part = self.any();
            words.extend(part);
        }
        words
    }
}

fn soak(seed: u64, rounds: u32) -> (u32, u32) {
    let mut shaper = Shaper { dice: Dice(seed), next_id: 0 };
    let mut decoded = 0;
    let mut refused = 0;
    for _ in 0..rounds {
        let words = shaper.stream();
        match decode_words(&words) {
            Ok(module) => {
                decoded += 1;
                let _ = generate(&module);
            }
            Err(_) => refused += 1,
        }
    }
    (decoded, refused)
}

#[test]
fn random_streams_never_abort_the_decoder() {
    let (decoded, refused) = soak(1, 6000);
    assert_eq!(decoded + refused, 6000);
    assert!(decoded > 0);
    assert!(refused > 0);
}

#[test]
fn more_random_streams_never_abort_the_decoder() {
    let (decoded, refused) = soak(0x5eed_cafe, 6000);
    assert_eq!(decoded + refused, 6000);
    assert!(decoded > 0);
    assert!(refused > 0);
}

#[test]
fn shapeless_streams_never_abort_the_decoder() {
    let mut dice = Dice(3);
    for _ in 0..6000 {
        let length = dice.below(12);
        let words = random_stream(&mut dice, length);
        let _ = decode_words(&words);
    }
}

#[test]
fn random_bytes_never_abort_the_decoder() {
    let mut dice = Dice(7);
    for _ in 0..3000 {
        let length = dice.below(64) as usize;
        let mut bytes: Vec<u8> = MAGIC.to_le_bytes().to_vec();
        bytes.extend_from_slice(&[0, 0, 1, 0, 0, 0, 0, 0, 9, 0, 0, 0, 0, 0, 0, 0]);
        for _ in 0..length {
            bytes.push(if dice.below(3) == 0 { dice.roll() as u8 } else { dice.below(4) as u8 });
        }
        let _ = decode(&bytes);
        let _ = shader(&bytes);
    }
}

#[test]
fn blanking_keeps_the_length_and_the_header() {
    let mut dice = Dice(99);
    for _ in 0..3000 {
        let length = dice.below(12);
        let words = random_stream(&mut dice, length);
        let clean = blank(&words);
        assert_eq!(clean.len(), words.len());
        assert_eq!(clean[..5], words[..5]);
        for (kept, given) in clean.iter().zip(&words) {
            assert!(kept == given || *kept == NOP);
        }
        assert_eq!(blank(&clean), clean);
        if is_well_guarded(&words) {
            assert_eq!(clean, words);
        }
    }
}
