use machine_launcher::drivers::address::is_ip_literal;

/// A reader that goes through a text from the left, as address parsers do.
struct Reader<'a> {
    rest: &'a [u8],
}

impl<'a> Reader<'a> {
    fn atomically<T>(&mut self, inner: impl FnOnce(&mut Reader<'a>) -> Option<T>) -> Option<T> {
        let rest = self.rest;
        let result = inner(self);
        if result.is_none() {
            self.rest = rest;
        }
        result
    }

    fn given(&mut self, c: u8) -> Option<()> {
        self.atomically(|r| match r.rest.split_first() {
            Some((first, rest)) if *first == c => {
                r.rest = rest;
                Some(())
            }
            _ => None,
        })
    }

    fn separated<T>(
        &mut self,
        sep: u8,
        index: usize,
        inner: impl FnOnce(&mut Reader<'a>) -> Option<T>,
    ) -> Option<T> {
        self.atomically(move |r| {
            if index > 0 {
                r.given(sep)?;
            }
            inner(r)
        })
    }

    fn number(&mut self, radix: u32, max_digits: usize, zero_prefix: bool, max: u32) -> Option<u32> {
        self.atomically(move |r| {
            let mut value: u32 = 0;
            let mut digits = 0;
            let leading_zero = r.rest.first() == Some(&b'0');
            while let Some(digit) = r.rest.first().and_then(|b| (*b as char).to_digit(radix)) {
                value = value * radix + digit;
                if value > max {
                    return None;
                }
                digits += 1;
                if digits > max_digits {
                    return None;
                }
                r.rest = &r.rest[1..];
            }
            if digits == 0 || (!zero_prefix && leading_zero && digits > 1) {
                None
            } else {
                Some(value)
            }
        })
    }

    fn v4(&mut self) -> Option<()> {
        self.atomically(|r| {
            for i in 0..4 {
                r.separated(b'.', i, |r| r.number(10, 3, false, 255))?;
            }
            Some(())
        })
    }

    fn groups(&mut self, limit: usize) -> (usize, bool) {
        for i in 0..limit {
            if i + 1 < limit && self.separated(b':', i, |r| r.v4()).is_some() {
                return (i + 2, true);
            }
            if self.separated(b':', i, |r| r.number(16, 4, true, 0xFFFF)).is_none() {
                return (i, false);
            }
        }
        (limit, false)
    }

    fn v6(&mut self) -> Option<()> {
        self.atomically(|r| {
            let (head, head_v4) = r.groups(8);
            if head == 8 {
                return Some(());
            }
            if head_v4 {
                return None;
            }
            r.given(b':')?;
            r.given(b':')?;
            r.groups(8 - (head + 1));
            Some(())
        })
    }
}

fn reads_as_an_address(text: &str) -> bool {
    let mut v4 = Reader { rest: text.as_bytes() };
    let mut v6 = Reader { rest: text.as_bytes() };
    (v4.v4().is_some() && v4.rest.is_empty()) || (v6.v6().is_some() && v6.rest.is_empty())
}

#[test]
fn reader_and_tables_agree() {
    for text in ["10.0.0.5", "::", "::1", "1:2:3:4:5:6:7::", "::ffff:192.168.0.1"] {
        assert!(reads_as_an_address(text), "{}", text);
    }
    for text in ["", "10.0.0.05", "1:2:3:4:5:6:7:8::", "::1.2.3.4:5", "1.2.3.4::"] {
        assert!(!reads_as_an_address(text), "{}", text);
    }
}

#[test]
fn ipv4_literals() {
    for text in ["10.0.0.5", "0.0.0.0", "255.255.255.255", "192.168.88.10", "1.2.3.4", "127.0.0.1"]
    {
        assert!(is_ip_literal(text), "{}", text);
    }
}

#[test]
fn texts_that_are_no_ipv4_literal() {
    for text in [
        "",
        "10.0.0",
        "10.0.0.5.6",
        "10.0.0.256",
        "10.0.0.1000",
        "10.0.0.05",
        "010.0.0.5",
        "00.0.0.0",
        "10..0.5",
        ".10.0.0.5",
        "10.0.0.5.",
        "10.0.0.-5",
        "10.0.0.5 ",
        " 10.0.0.5",
        "10.0.0.a",
        "10,0,0,5",
        "localhost",
        "10.0.0.5:80",
        "1.2.3.\u{664}",
    ] {
        assert!(!is_ip_literal(text), "{}", text);
    }
}

#[test]
fn ipv6_literals() {
    for text in [
        "::",
        "::1",
        "1::",
        "1::2",
        "fe80::1",
        "FE80::ABCD",
        "2001:db8::8a2e:370:7334",
        "1:2:3:4:5:6:7:8",
        "0001:0002:0003:0004:0005:0006:0007:0008",
        "1:2:3:4:5:6:7::",
        "::2:3:4:5:6:7:8",
        "1:2:3:4::6:7:8",
        "::1.2.3.4",
        "::ffff:192.168.0.1",
        "1:2:3:4:5:6:1.2.3.4",
        "1:2:3:4:5::1.2.3.4",
        "64:ff9b::192.0.2.33",
    ] {
        assert!(is_ip_literal(text), "{}", text);
    }
}

#[test]
fn texts_that_are_no_ipv6_literal() {
    for text in [
        ":",
        ":::",
        ":1",
        "1:",
        "1:2",
        "1:2:3:4:5:6:7",
        "1:2:3:4:5:6:7:8:9",
        "1:2:3:4:5:6:7:8::",
        "::1:2:3:4:5:6:7:8",
        "1::2::3",
        "::1::",
        "12345::",
        "::12345",
        "g::",
        "::g",
        "1:2:3:4:5:6:7:1.2.3.4",
        "1:2:3:4:5:6::1.2.3.4",
        "1.2.3.4::",
        "1.2.3.4::1",
        "::1.2.3.4:5",
        "::1.2.3",
        "::1.02.3.4",
        "::1.2.3.256",
        "fe80::1%eth0",
        "[::1]",
        "::1 ",
        "1:2:3:4:5:6:7:",
        ":2:3:4:5:6:7:8",
    ] {
        assert!(!is_ip_literal(text), "{}", text);
    }
}

#[test]
fn short_texts_are_literals_as_a_reader_has_them() {
    let alphabet = [':', '.', '0', '1', 'f', 'g'];
    let mut texts: Vec<String> = vec![String::new()];
    let mut from = 0;
    for _ in 0..6 {
        let upto = texts.len();
        for i in from..upto {
            for c in alphabet {
                let mut text = texts[i].clone();
                text.push(c);
                texts.push(text);
            }
        }
        from = upto;
    }
    assert_eq!(texts.len(), 1 + 6 + 36 + 216 + 1296 + 7776 + 46656);
    for text in texts {
        assert_eq!(is_ip_literal(&text), reads_as_an_address(&text), "{:?}", text);
    }
}

#[test]
fn joined_pieces_are_literals_as_a_reader_has_them() {
    let pieces = [
        "", "", "0", "1", "ff", "1234", "ABCD", "12345", "g", "1.2.3.4", "255.255.255.255",
        "256.1.1.1", "01.2.3.4", "1.2.3", "0.0.0.0",
    ];
    let mut state: u64 = 0x2545_F491_4F6C_DD1D;
    let mut next = |bound: u64| {
        state = state
            .wrapping_mul(6364136223846793005)
            .wrapping_add(1442695040888963407);
        (state >> 33) % bound
    };
    let mut literals = 0;
    for _ in 0..60_000 {
        let count = 1 + next(10) as usize;
        let mut text = String::new();
        for i in 0..count {
            if i > 0 {
                text.push(':');
            }
            text.push_str(pieces[next(pieces.len() as u64) as usize]);
        }
        let expected = reads_as_an_address(&text);
        if expected {
            literals += 1;
        }
        assert_eq!(is_ip_literal(&text), expected, "{:?}", text);
    }
    assert!(literals > 100);
}
