use vstd::prelude::*;
use crate::address::Address;
use crate::error::TokenAclError;

verus! {

pub const CREATE_CONFIG: u8 = 0;
pub const SET_AUTHORITY: u8 = 1;
pub const SET_GATING_PROGRAM: u8 = 2;
pub const DELETE_CONFIG: u8 = 3;
pub const FREEZE: u8 = 4;
pub const THAW: u8 = 5;
pub const THAW_PERMISSIONLESS: u8 = 6;
pub const FREEZE_PERMISSIONLESS: u8 = 7;
pub const TOGGLE_PERMISSIONLESS: u8 = 8;

/// A request to this program: its first byte selects the operation and the
/// payload follows.
#[derive(Clone, Copy, Debug)]
pub enum TokenAclInstruction {
    CreateConfig { gating_program: Address },
    SetAuthority { new_authority: Address },
    SetGatingProgram { new_gating_program: Address },
    DeleteConfig { new_freeze_authority: Address },
    Freeze,
    Thaw,
    ThawPermissionless { idempotent: bool },
    FreezePermissionless { idempotent: bool },
    TogglePermissionlessInstructions { freeze_enabled: bool, thaw_enabled: bool },
}

pub enum InstructionModel {
    CreateConfig(Seq<u8>),
    SetAuthority(Seq<u8>),
    SetGatingProgram(Seq<u8>),
    DeleteConfig(Seq<u8>),
    Freeze,
    Thaw,
    ThawPermissionless(bool),
    FreezePermissionless(bool),
    TogglePermissionlessInstructions(bool, bool),
}

impl View for TokenAclInstruction {
    type V = InstructionModel;

    open spec fn view(&self) -> InstructionModel {
        match *self {
            TokenAclInstruction::CreateConfig { gating_program } => InstructionModel::CreateConfig(gating_program@),
            TokenAclInstruction::SetAuthority { new_authority } => InstructionModel::SetAuthority(new_authority@),
            TokenAclInstruction::SetGatingProgram { new_gating_program } => InstructionModel::SetGatingProgram(new_gating_program@),
            TokenAclInstruction::DeleteConfig { new_freeze_authority } => InstructionModel::DeleteConfig(new_freeze_authority@),
            TokenAclInstruction::Freeze => InstructionModel::Freeze,
            TokenAclInstruction::Thaw => InstructionModel::Thaw,
            TokenAclInstruction::ThawPermissionless { idempotent } => InstructionModel::ThawPermissionless(idempotent),
            TokenAclInstruction::FreezePermissionless { idempotent } => InstructionModel::FreezePermissionless(idempotent),
            TokenAclInstruction::TogglePermissionlessInstructions { freeze_enabled, thaw_enabled } =>
                InstructionModel::TogglePermissionlessInstructions(freeze_enabled, thaw_enabled),
        }
    }
}

/// A flag byte: 0 or 1.
pub open spec fn flag_of(b: u8) -> Option<bool> {
    if b == 0 { Some(false) } else if b == 1 { Some(true) } else { None }
}

pub open spec fn flag_byte(b: bool) -> u8 {
    if b { 1u8 } else { 0u8 }
}

/// The request that `data` holds, if any.
pub open spec fn decode_instruction(data: Seq<u8>) -> Option<InstructionModel> {
    if data.len() == 0 {
        None
    } else {
        let op = data[0];
        let rest = data.drop_first();
        if op == CREATE_CONFIG || op == SET_AUTHORITY || op == SET_GATING_PROGRAM || op == DELETE_CONFIG {
            if rest.len() != 32 {
                None
            } else if op == CREATE_CONFIG {
                Some(InstructionModel::CreateConfig(rest))
            } else if op == SET_AUTHORITY {
                Some(InstructionModel::SetAuthority(rest))
            } else if op == SET_GATING_PROGRAM {
                Some(InstructionModel::SetGatingProgram(rest))
            } else {
                Some(InstructionModel::DeleteConfig(rest))
            }
        } else if op == FREEZE || op == THAW {
            if rest.len() != 0 {
                None
            } else if op == FREEZE {
                Some(InstructionModel::Freeze)
            } else {
                Some(InstructionModel::Thaw)
            }
        } else if op == THAW_PERMISSIONLESS || op == FREEZE_PERMISSIONLESS {
            if rest.len() != 1 {
                None
            } else {
                match flag_of(rest[0]) {
                    None => None,
                    Some(f) => if op == THAW_PERMISSIONLESS {
                        Some(InstructionModel::ThawPermissionless(f))
                    } else {
                        Some(InstructionModel::FreezePermissionless(f))
                    },
                }
            }
        } else if op == TOGGLE_PERMISSIONLESS {
            if rest.len() != 2 {
                None
            } else {
                match (flag_of(rest[0]), flag_of(rest[1])) {
                    (Some(f), Some(t)) => Some(InstructionModel::TogglePermissionlessInstructions(f, t)),
                    _ => None,
                }
            }
        } else {
            None
        }
    }
}

/// The bytes of a request.
pub open spec fn encode_instruction(i: InstructionModel) -> Seq<u8> {
    match i {
        InstructionModel::CreateConfig(a) => seq![CREATE_CONFIG] + a,
        InstructionModel::SetAuthority(a) => seq![SET_AUTHORITY] + a,
        InstructionModel::SetGatingProgram(a) => seq![SET_GATING_PROGRAM] + a,
        InstructionModel::DeleteConfig(a) => seq![DELETE_CONFIG] + a,
        InstructionModel::Freeze => seq![FREEZE],
        InstructionModel::Thaw => seq![THAW],
        InstructionModel::ThawPermissionless(f) => seq![THAW_PERMISSIONLESS, flag_byte(f)],
        InstructionModel::FreezePermissionless(f) => seq![FREEZE_PERMISSIONLESS, flag_byte(f)],
        InstructionModel::TogglePermissionlessInstructions(f, t) => seq![TOGGLE_PERMISSIONLESS, flag_byte(f), flag_byte(t)],
    }
}

pub open spec fn instruction_wf(i: InstructionModel) -> bool {
    match i {
        InstructionModel::CreateConfig(a) => a.len() == 32,
        InstructionModel::SetAuthority(a) => a.len() == 32,
        InstructionModel::SetGatingProgram(a) => a.len() == 32,
        InstructionModel::DeleteConfig(a) => a.len() == 32,
        _ => true,
    }
}

fn read_flag(b: u8) -> (r: Option<bool>)
    ensures
        r == flag_of(b),
{
    if b == 0 {
        Some(false)
    } else if b == 1 {
        Some(true)
    } else {
        None
    }
}

fn push_key(out: &mut Vec<u8>, a: &Address)
    ensures
        final(out)@ == old(out)@ + a@,
{
    let mut i: usize = 0;
    while i < 32
        invariant
            i <= 32,
            a@.len() == 32,
            out@ == old(out)@ + a@.subrange(0, i as int),
        decreases 32 - i,
    {
        out.push(a.bytes[i]);
        i += 1;
        assert(out@ =~= old(out)@ + a@.subrange(0, i as int));
    }
    assert(a@.subrange(0, 32) =~= a@);
}

impl TokenAclInstruction {
    /// Reads a request from its bytes.
    pub fn unpack(data: &Vec<u8>) -> (r: Result<TokenAclInstruction, TokenAclError>)
        ensures
            match r {
                Ok(i) => decode_instruction(data@) == Some(i@),
                Err(e) => decode_instruction(data@) is None && e == TokenAclError::InvalidInstructionData,
            },
    {
        if data.len() == 0 {
            return Err(TokenAclError::InvalidInstructionData);
        }
        let op = data[0];
        let n = data.len() - 1;
        let ghost rest = data@.drop_first();
        if op == CREATE_CONFIG || op == SET_AUTHORITY || op == SET_GATING_PROGRAM || op == DELETE_CONFIG {
            if n != 32 {
                return Err(TokenAclError::InvalidInstructionData);
            }
            let a = Address::read_at(data, 1);
            assert(a@ =~= rest);
            if op == CREATE_CONFIG {
                Ok(TokenAclInstruction::CreateConfig { gating_program: a })
            } else if op == SET_AUTHORITY {
                Ok(TokenAclInstruction::SetAuthority { new_authority: a })
            } else if op == SET_GATING_PROGRAM {
                Ok(TokenAclInstruction::SetGatingProgram { new_gating_program: a })
            } else {
                Ok(TokenAclInstruction::DeleteConfig { new_freeze_authority: a })
            }
        } else if op == FREEZE || op == THAW {
            if n != 0 {
                Err(TokenAclError::InvalidInstructionData)
            } else if op == FREEZE {
                Ok(TokenAclInstruction::Freeze)
            } else {
                Ok(TokenAclInstruction::Thaw)
            }
        } else if op == THAW_PERMISSIONLESS || op == FREEZE_PERMISSIONLESS {
            if n != 1 {
                return Err(TokenAclError::InvalidInstructionData);
            }
            match read_flag(data[1]) {
                None => Err(TokenAclError::InvalidInstructionData),
                Some(f) => if op == THAW_PERMISSIONLESS {
                    Ok(TokenAclInstruction::ThawPermissionless { idempotent: f })
                } else {
                    Ok(TokenAclInstruction::FreezePermissionless { idempotent: f })
                },
            }
        } else if op == TOGGLE_PERMISSIONLESS {
            if n != 2 {
                return Err(TokenAclError::InvalidInstructionData);
            }
            match (read_flag(data[1]), read_flag(data[2])) {
                (Some(f), Some(t)) => Ok(TokenAclInstruction::TogglePermissionlessInstructions { freeze_enabled: f, thaw_enabled: t }),
                _ => Err(TokenAclError::InvalidInstructionData),
            }
        } else {
            Err(TokenAclError::InvalidInstructionData)
        }
    }

    /// The bytes of this request.
    pub fn pack(&self) -> (r: Vec<u8>)
        ensures
            r@ == encode_instruction(self@),
    {
        let mut r: Vec<u8> = Vec::new();
        match self {
            TokenAclInstruction::CreateConfig { gating_program } => {
                r.push(CREATE_CONFIG);
                push_key(&mut r, gating_program);
            },
            TokenAclInstruction::SetAuthority { new_authority } => {
                r.push(SET_AUTHORITY);
                push_key(&mut r, new_authority);
            },
            TokenAclInstruction::SetGatingProgram { new_gating_program } => {
                r.push(SET_GATING_PROGRAM);
                push_key(&mut r, new_gating_program);
            },
            TokenAclInstruction::DeleteConfig { new_freeze_authority } => {
                r.push(DELETE_CONFIG);
                push_key(&mut r, new_freeze_authority);
            },
            TokenAclInstruction::Freeze => {
                r.push(FREEZE);
            },
            TokenAclInstruction::Thaw => {
                r.push(THAW);
            },
            TokenAclInstruction::ThawPermissionless { idempotent } => {
                r.push(THAW_PERMISSIONLESS);
                r.push(if *idempotent { 1u8 } else { 0u8 });
            },
            TokenAclInstruction::FreezePermissionless { idempotent } => {
                r.push(FREEZE_PERMISSIONLESS);
                r.push(if *idempotent { 1u8 } else { 0u8 });
            },
            TokenAclInstruction::TogglePermissionlessInstructions { freeze_enabled, thaw_enabled } => {
                r.push(TOGGLE_PERMISSIONLESS);
                r.push(if *freeze_enabled { 1u8 } else { 0u8 });
                r.push(if *thaw_enabled { 1u8 } else { 0u8 });
            },
        }
        assert(r@ =~= encode_instruction(self@));
        r
    }
}

/// Reading the bytes of a request gives that request back.
pub proof fn lemma_instruction_round_trip(i: InstructionModel)
    requires
        instruction_wf(i),
    ensures
        decode_instruction(encode_instruction(i)) == Some(i),
{
    let b = encode_instruction(i);
    assert(b.drop_first() =~= match i {
        InstructionModel::CreateConfig(a) => a,
        InstructionModel::SetAuthority(a) => a,
        InstructionModel::SetGatingProgram(a) => a,
        InstructionModel::DeleteConfig(a) => a,
        _ => b.drop_first(),
    });
}

} // verus!
