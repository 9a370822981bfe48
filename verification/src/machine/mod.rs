//! Machine identities: what a machine ID is made of, and its text form
//! `fm100`, a type letter, a source letter and the base32 text of a
//! 32-byte hash.
use vstd::prelude::*;

use crate::machine::base32::{
    hash_text, hash_to_text, lemma_hash_text_chars, lemma_hash_text_round_trip, text_hash, text_to_hash,
};
use crate::text::{chars_of, is_lower_ascii_alnum, string_from_chars};

pub mod base32;
pub mod machine_id;

verus! {

/// Number of characters in the text of a machine ID.
pub const MACHINE_ID_LENGTH: usize = 59;

/// Which hardware data a machine ID was derived from.
#[derive(Debug, Clone, Copy, PartialEq, Eq, Hash, Structural)]
pub enum MachineIdSource {
    /// The TPM endorsement key certificate.
    Tpm,
    /// The product, board and chassis serial numbers.
    ProductBoardChassisSerial,
}

/// The letter that stands for a source in the text of an ID.
pub open spec fn source_char(s: MachineIdSource) -> char {
    match s {
        MachineIdSource::Tpm => 't',
        MachineIdSource::ProductBoardChassisSerial => 's',
    }
}

impl MachineIdSource {
    /// The letter that stands for this source in the text of an ID.
    pub fn id_char(self) -> (c: char)
        ensures
            c == source_char(self),
    {
        match self {
            MachineIdSource::Tpm => 't',
            MachineIdSource::ProductBoardChassisSerial => 's',
        }
    }
}

/// What kind of machine an ID names.
#[derive(Debug, Clone, Copy, PartialEq, Eq, Hash, Structural)]
pub enum MachineType {
    Host,
    Dpu,
    /// A host whose ID was derived from the fingerprint of its DPU.
    PredictedHost,
}

/// The letter that stands for a machine type in the text of an ID.
pub open spec fn type_char(t: MachineType) -> char {
    match t {
        MachineType::Host => 'h',
        MachineType::Dpu => 'd',
        MachineType::PredictedHost => 'p',
    }
}

/// The text an ID of the type `t` begins with: `fm100` and the type letter.
pub open spec fn type_prefix(t: MachineType) -> Seq<char> {
    seq!['f', 'm', '1', '0', '0', type_char(t)]
}

impl MachineType {
    /// The text an ID of this type begins with.
    pub fn id_prefix(self) -> (r: &'static str)
        ensures
            r@ == type_prefix(self),
    {
        match self {
            MachineType::Host => {
                proof {
                    reveal_strlit("fm100h");
                }
                "fm100h"
            },
            MachineType::Dpu => {
                proof {
                    reveal_strlit("fm100d");
                }
                "fm100d"
            },
            MachineType::PredictedHost => {
                proof {
                    reveal_strlit("fm100p");
                }
                "fm100p"
            },
        }
    }
}

/// Identity of a machine: a SHA-256 hash of its hardware fingerprint, the
/// source of that fingerprint, and the kind of machine.
#[derive(Debug, Clone, Copy, Hash)]
pub struct MachineId {
    pub source: MachineIdSource,
    pub hash: [u8; 32],
    pub machine_type: MachineType,
}

/// The text of a machine ID.
pub open spec fn machine_id_text(id: MachineId) -> Seq<char> {
    type_prefix(id.machine_type) + seq![source_char(id.source)] + hash_text(id.hash@)
}

impl MachineId {
    /// A machine ID of the given source, hash and type.
    pub fn new(source: MachineIdSource, hash: [u8; 32], machine_type: MachineType) -> (r: MachineId)
        ensures
            r == (MachineId { source, hash, machine_type }),
    {
        MachineId { source, hash, machine_type }
    }

    /// Which hardware data the ID was derived from.
    pub fn source(&self) -> (r: MachineIdSource)
        ensures
            r == self.source,
    {
        self.source
    }

    /// What kind of machine the ID names.
    pub fn machine_type(&self) -> (r: MachineType)
        ensures
            r == self.machine_type,
    {
        self.machine_type
    }

    /// The text of the ID.
    pub fn to_string(&self) -> (r: String)
        ensures
            r@ == machine_id_text(*self),
    {
        let mut chars: Vec<char> = Vec::new();
        chars.push('f');
        chars.push('m');
        chars.push('1');
        chars.push('0');
        chars.push('0');
        chars.push(self.machine_type.id_letter());
        chars.push(self.source.id_char());
        let mut hash_chars = hash_to_text(&self.hash);
        chars.append(&mut hash_chars);
        assert(chars@ =~= machine_id_text(*self));
        string_from_chars(&chars)
    }

    /// Reads a machine ID from its text. Succeeds exactly on the texts of
    /// machine IDs, with the ID whose text it is; the error holds the text.
    pub fn parse(s: &str) -> (r: Result<MachineId, MachineIdParseError>)
        ensures
            match parsed_machine_id(s@) {
                Some(id) => r == Ok::<MachineId, MachineIdParseError>(id),
                None => r is Err && r->Err_0.0@ == s@,
            },
    {
        let chars = chars_of(s);
        let ghost t = s@;
        if chars.len() != 59 {
            proof {
                assert forall|id: MachineId| machine_id_text(id) != t by {
                    if machine_id_text(id) == t {
                        lemma_text_determines_id(id);
                    }
                }
            }
            return Err(MachineIdParseError(s.to_owned()));
        }
        let machine_type = if chars[5] == 'h' {
            Some(MachineType::Host)
        } else if chars[5] == 'd' {
            Some(MachineType::Dpu)
        } else if chars[5] == 'p' {
            Some(MachineType::PredictedHost)
        } else {
            None
        };
        let source = if chars[6] == 't' {
            Some(MachineIdSource::Tpm)
        } else if chars[6] == 's' {
            Some(MachineIdSource::ProductBoardChassisSerial)
        } else {
            None
        };
        let prefix_ok = chars[0] == 'f' && chars[1] == 'm' && chars[2] == '1' && chars[3] == '0'
            && chars[4] == '0';
        match (machine_type, source) {
            (Some(machine_type), Some(source)) if prefix_ok => {
                let mut rest: Vec<char> = Vec::new();
                let mut i: usize = 7;
                while i < 59
                    invariant
                        7 <= i <= 59,
                        chars@.len() == 59,
                        rest@ == chars@.subrange(7, i as int),
                    decreases 59 - i,
                {
                    rest.push(chars[i]);
                    assert(rest@ =~= chars@.subrange(7, i + 1));
                    i = i + 1;
                }
                let hash = text_to_hash(&rest);
                let again = hash_to_text(&hash);
                let candidate = MachineId { source, hash, machine_type };
                if chars_equal(&again, &rest) {
                    assert(machine_id_text(candidate) =~= t);
                    proof {
                        let id = choose|id: MachineId| machine_id_text(id) == t;
                        lemma_machine_id_text_injective(id, candidate);
                    }
                    Ok(candidate)
                } else {
                    proof {
                        assert forall|id: MachineId| machine_id_text(id) != t by {
                            if machine_id_text(id) == t {
                                lemma_text_determines_id(id);
                                assert(rest@ =~= hash_text(id.hash@));
                            }
                        }
                    }
                    Err(MachineIdParseError(s.to_owned()))
                }
            },
            _ => {
                proof {
                    assert forall|id: MachineId| machine_id_text(id) != t by {
                        if machine_id_text(id) == t {
                            lemma_text_determines_id(id);
                        }
                    }
                }
                Err(MachineIdParseError(s.to_owned()))
            },
        }
    }
}

impl MachineType {
    /// The letter that stands for this type in the text of an ID.
    pub fn id_letter(self) -> (c: char)
        ensures
            c == type_char(self),
    {
        match self {
            MachineType::Host => 'h',
            MachineType::Dpu => 'd',
            MachineType::PredictedHost => 'p',
        }
    }
}

/// Whether two character sequences are equal.
fn chars_equal(a: &Vec<char>, b: &Vec<char>) -> (r: bool)
    ensures
        r == (a@ == b@),
{
    if a.len() != b.len() {
        return false;
    }
    let mut i: usize = 0;
    while i < a.len()
        invariant
            a@.len() == b@.len(),
            i <= a@.len(),
            forall|j: int| 0 <= j < i ==> a@[j] == b@[j],
        decreases a@.len() - i,
    {
        if a[i] != b[i] {
            return false;
        }
        i = i + 1;
    }
    assert(a@ =~= b@);
    true
}

/// The machine ID whose text `t` is, if there is one.
pub open spec fn parsed_machine_id(t: Seq<char>) -> Option<MachineId> {
    if exists|id: MachineId| machine_id_text(id) == t {
        Some(choose|id: MachineId| machine_id_text(id) == t)
    } else {
        None
    }
}

/// Reading the text of an ID gives back that ID.
pub proof fn lemma_machine_id_round_trip(id: MachineId)
    ensures
        parsed_machine_id(machine_id_text(id)) == Some(id),
{
    let t = machine_id_text(id);
    assert(exists|x: MachineId| machine_id_text(x) == t);
    let c = choose|x: MachineId| machine_id_text(x) == t;
    lemma_machine_id_text_injective(c, id);
}

/// The text of an ID has 59 characters, and each part of it gives back
/// the part of the ID it was written from.
pub proof fn lemma_text_determines_id(id: MachineId)
    ensures
        machine_id_text(id).len() == 59,
        machine_id_text(id).subrange(0, 5) == seq!['f', 'm', '1', '0', '0'],
        machine_id_text(id)[5] == type_char(id.machine_type),
        machine_id_text(id)[6] == source_char(id.source),
        machine_id_text(id).subrange(7, 59) == hash_text(id.hash@),
        text_hash(machine_id_text(id).subrange(7, 59)) == id.hash@,
{
    let t = machine_id_text(id);
    lemma_hash_text_round_trip(id.hash@);
    assert(t.subrange(0, 5) =~= seq!['f', 'm', '1', '0', '0']);
    assert(t.subrange(7, 59) =~= hash_text(id.hash@));
}

/// The text of an ID holds only digits and lowercase ASCII letters.
pub proof fn lemma_machine_id_text_chars(id: MachineId)
    ensures
        is_lower_ascii_alnum(machine_id_text(id)),
{
    let t = machine_id_text(id);
    let h = hash_text(id.hash@);
    lemma_hash_text_chars(id.hash@);
    assert forall|i: int| 0 <= i < t.len() implies ('0' <= #[trigger] t[i] <= '9' || 'a' <= t[i] <= 'z') by {
        if i >= 7 {
            assert(t[i] == h[i - 7]);
        }
    }
}

/// The text of an ID is `fm100`, then `h`, `d` or `p` for a host, a DPU
/// or a predicted host, then `t` or `s` for an ID from the TPM certificate
/// or from the serial numbers, then the text of the hash.
pub proof fn lemma_machine_id_text_layout(id: MachineId)
    ensures
        machine_id_text(id).subrange(0, 5) == "fm100"@,
        machine_id_text(id)[5] == match id.machine_type {
            MachineType::Host => 'h',
            MachineType::Dpu => 'd',
            MachineType::PredictedHost => 'p',
        },
        machine_id_text(id)[6] == match id.source {
            MachineIdSource::Tpm => 't',
            MachineIdSource::ProductBoardChassisSerial => 's',
        },
        machine_id_text(id).subrange(7, 59) == hash_text(id.hash@),
{
    reveal_strlit("fm100");
    lemma_text_determines_id(id);
    assert("fm100"@ =~= seq!['f', 'm', '1', '0', '0']);
}

/// Two IDs with the same text are the same ID.
pub proof fn lemma_machine_id_text_injective(a: MachineId, b: MachineId)
    requires
        machine_id_text(a) == machine_id_text(b),
    ensures
        a == b,
{
    lemma_text_determines_id(a);
    lemma_text_determines_id(b);
    assert(a.hash@ == b.hash@);
    assert(a.hash =~= b.hash);
}

impl PartialEq for MachineId {
    fn eq(&self, other: &MachineId) -> (r: bool) {
        if self.source != other.source || self.machine_type != other.machine_type {
            return false;
        }
        let mut i: usize = 0;
        while i < 32
            invariant
                i <= 32,
                forall|j: int| 0 <= j < i ==> self.hash@[j] == other.hash@[j],
            decreases 32 - i,
        {
            if self.hash[i] != other.hash[i] {
                return false;
            }
            i = i + 1;
        }
        assert(self.hash =~= other.hash);
        true
    }
}

impl vstd::std_specs::cmp::PartialEqSpecImpl for MachineId {
    open spec fn obeys_eq_spec() -> bool {
        true
    }

    open spec fn eq_spec(&self, other: &MachineId) -> bool {
        *self == *other
    }
}

impl Eq for MachineId {
}

/// A text that is not the text of a machine ID; it holds that text.
#[derive(Debug, Clone)]
pub struct MachineIdParseError(pub String);

} // verus!
