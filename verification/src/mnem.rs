//! Instruction mnemonics by opcode (CB-prefixed opcodes as `0xcbXX`), for traces and
//! listings.
use vstd::prelude::*;

verus! {

/// The mnemonic of an opcode, as the instruction table names it; opcodes outside the table
/// read "(unknown opcode)".
pub open spec fn mnem_table(code: u16) -> &'static str {
    match code {
        0x0000 => "nop ",
        0x0001 => "ld bc,d16",
        0x0002 => "ld (bc),a",
        0x0003 => "inc bc",
        0x0004 => "inc b",
        0x0005 => "dec b",
        0x0006 => "ld b,d8",
        0x0007 => "rlca ",
        0x0008 => "ld (a16),sp",
        0x0009 => "add hl,bc",
        0x000a => "ld a,(bc)",
        0x000b => "dec bc",
        0x000c => "inc c",
        0x000d => "dec c",
        0x000e => "ld c,d8",
        0x000f => "rrca ",
        0x0010 => "stop 0",
        0x0011 => "ld de,d16",
        0x0012 => "ld (de),a",
        0x0013 => "inc de",
        0x0014 => "inc d",
        0x0015 => "dec d",
        0x0016 => "ld d,d8",
        0x0017 => "rla ",
        0x0018 => "jr r8",
        0x0019 => "add hl,de",
        0x001a => "ld a,(de)",
        0x001b => "dec de",
        0x001c => "inc e",
        0x001d => "dec e",
        0x001e => "ld e,d8",
        0x001f => "rra ",
        0x0020 => "jr nz,r8",
        0x0021 => "ld hl,d16",
        0x0022 => "ldi (hl),a",
        0x0023 => "inc hl",
        0x0024 => "inc h",
        0x0025 => "dec h",
        0x0026 => "ld h,d8",
        0x0027 => "daa ",
        0x0028 => "jr z,r8",
        0x0029 => "add hl,hl",
        0x002a => "ldi a,(hl)",
        0x002b => "dec hl",
        0x002c => "inc l",
        0x002d => "dec l",
        0x002e => "ld l,d8",
        0x002f => "cpl ",
        0x0030 => "jr nc,r8",
        0x0031 => "ld sp,d16",
        0x0032 => "ldd (hl),a",
        0x0033 => "inc sp",
        0x0034 => "inc (hl)",
        0x0035 => "dec (hl)",
        0x0036 => "ld (hl),d8",
        0x0037 => "scf ",
        0x0038 => "jr cf,r8",
        0x0039 => "add hl,sp",
        0x003a => "ldd a,(hl)",
        0x003b => "dec sp",
        0x003c => "inc a",
        0x003d => "dec a",
        0x003e => "ld a,d8",
        0x003f => "ccf ",
        0x0040 => "ld b,b",
        0x0041 => "ld b,c",
        0x0042 => "ld b,d",
        0x0043 => "ld b,e",
        0x0044 => "ld b,h",
        0x0045 => "ld b,l",
        0x0046 => "ld b,(hl)",
        0x0047 => "ld b,a",
        0x0048 => "ld c,b",
        0x0049 => "ld c,c",
        0x004a => "ld c,d",
        0x004b => "ld c,e",
        0x004c => "ld c,h",
        0x004d => "ld c,l",
        0x004e => "ld c,(hl)",
        0x004f => "ld c,a",
        0x0050 => "ld d,b",
        0x0051 => "ld d,c",
        0x0052 => "ld d,d",
        0x0053 => "ld d,e",
        0x0054 => "ld d,h",
        0x0055 => "ld d,l",
        0x0056 => "ld d,(hl)",
        0x0057 => "ld d,a",
        0x0058 => "ld e,b",
        0x0059 => "ld e,c",
        0x005a => "ld e,d",
        0x005b => "ld e,e",
        0x005c => "ld e,h",
        0x005d => "ld e,l",
        0x005e => "ld e,(hl)",
        0x005f => "ld e,a",
        0x0060 => "ld h,b",
        0x0061 => "ld h,c",
        0x0062 => "ld h,d",
        0x0063 => "ld h,e",
        0x0064 => "ld h,h",
        0x0065 => "ld h,l",
        0x0066 => "ld h,(hl)",
        0x0067 => "ld h,a",
        0x0068 => "ld l,b",
        0x0069 => "ld l,c",
        0x006a => "ld l,d",
        0x006b => "ld l,e",
        0x006c => "ld l,h",
        0x006d => "ld l,l",
        0x006e => "ld l,(hl)",
        0x006f => "ld l,a",
        0x0070 => "ld (hl),b",
        0x0071 => "ld (hl),c",
        0x0072 => "ld (hl),d",
        0x0073 => "ld (hl),e",
        0x0074 => "ld (hl),h",
        0x0075 => "ld (hl),l",
        0x0076 => "halt ",
        0x0077 => "ld (hl),a",
        0x0078 => "ld a,b",
        0x0079 => "ld a,c",
        0x007a => "ld a,d",
        0x007b => "ld a,e",
        0x007c => "ld a,h",
        0x007d => "ld a,l",
        0x007e => "ld a,(hl)",
        0x007f => "ld a,a",
        0x0080 => "add a,b",
        0x0081 => "add a,c",
        0x0082 => "add a,d",
        0x0083 => "add a,e",
        0x0084 => "add a,h",
        0x0085 => "add a,l",
        0x0086 => "add a,(hl)",
        0x0087 => "add a,a",
        0x0088 => "adc a,b",
        0x0089 => "adc a,c",
        0x008a => "adc a,d",
        0x008b => "adc a,e",
        0x008c => "adc a,h",
        0x008d => "adc a,l",
        0x008e => "adc a,(hl)",
        0x008f => "adc a,a",
        0x0090 => "sub b",
        0x0091 => "sub c",
        0x0092 => "sub d",
        0x0093 => "sub e",
        0x0094 => "sub h",
        0x0095 => "sub l",
        0x0096 => "sub (hl)",
        0x0097 => "sub a",
        0x0098 => "sbc a,b",
        0x0099 => "sbc a,c",
        0x009a => "sbc a,d",
        0x009b => "sbc a,e",
        0x009c => "sbc a,h",
        0x009d => "sbc a,l",
        0x009e => "sbc a,(hl)",
        0x009f => "sbc a,a",
        0x00a0 => "and b",
        0x00a1 => "and c",
        0x00a2 => "and d",
        0x00a3 => "and e",
        0x00a4 => "and h",
        0x00a5 => "and l",
        0x00a6 => "and (hl)",
        0x00a7 => "and a",
        0x00a8 => "xor b",
        0x00a9 => "xor c",
        0x00aa => "xor d",
        0x00ab => "xor e",
        0x00ac => "xor h",
        0x00ad => "xor l",
        0x00ae => "xor (hl)",
        0x00af => "xor a",
        0x00b0 => "or b",
        0x00b1 => "or c",
        0x00b2 => "or d",
        0x00b3 => "or e",
        0x00b4 => "or h",
        0x00b5 => "or l",
        0x00b6 => "or (hl)",
        0x00b7 => "or a",
        0x00b8 => "cp b",
        0x00b9 => "cp c",
        0x00ba => "cp d",
        0x00bb => "cp e",
        0x00bc => "cp h",
        0x00bd => "cp l",
        0x00be => "cp (hl)",
        0x00bf => "cp a",
        0x00c0 => "ret nz",
        0x00c1 => "pop bc",
        0x00c2 => "jp nz,a16",
        0x00c3 => "jp a16",
        0x00c4 => "call nz,a16",
        0x00c5 => "push bc",
        0x00c6 => "add a,d8",
        0x00c7 => "rst 0x00",
        0x00c8 => "ret z",
        0x00c9 => "ret ",
        0x00ca => "jp z,a16",
        0x00cb => "prefix cb",
        0x00cc => "call z,a16",
        0x00cd => "call a16",
        0x00ce => "adc a,d8",
        0x00cf => "rst 0x08",
        0x00d0 => "ret nc",
        0x00d1 => "pop de",
        0x00d2 => "jp nc,a16",
        0x00d4 => "call nc,a16",
        0x00d5 => "push de",
        0x00d6 => "sub d8",
        0x00d7 => "rst 0x10",
        0x00d8 => "ret cf",
        0x00d9 => "reti ",
        0x00da => "jp cf,a16",
        0x00dc => "call cf,a16",
        0x00de => "sbc a,d8",
        0x00df => "rst 0x18",
        0x00e0 => "ld (0xff00+a8),a",
        0x00e1 => "pop hl",
        0x00e2 => "ld (0xff00+c),a",
        0x00e5 => "push hl",
        0x00e6 => "and d8",
        0x00e7 => "rst 0x20",
        0x00e8 => "add sp,r8",
        0x00e9 => "jp hl",
        0x00ea => "ld (a16),a",
        0x00ee => "xor d8",
        0x00ef => "rst 0x28",
        0x00f0 => "ld a,(0xff00+a8)",
        0x00f1 => "pop af",
        0x00f2 => "ld a,(0xff00+c)",
        0x00f3 => "di ",
        0x00f5 => "push af",
        0x00f6 => "or d8",
        0x00f7 => "rst 0x30",
        0x00f8 => "ldhl sp,r8",
        0x00f9 => "ld sp,hl",
        0x00fa => "ld a,(a16)",
        0x00fb => "ei ",
        0x00fe => "cp d8",
        0x00ff => "rst 0x38",
        0xcb00 => "rlc b",
        0xcb01 => "rlc c",
        0xcb02 => "rlc d",
        0xcb03 => "rlc e",
        0xcb04 => "rlc h",
        0xcb05 => "rlc l",
        0xcb06 => "rlc (hl)",
        0xcb07 => "rlc a",
        0xcb08 => "rrc b",
        0xcb09 => "rrc c",
        0xcb0a => "rrc d",
        0xcb0b => "rrc e",
        0xcb0c => "rrc h",
        0xcb0d => "rrc l",
        0xcb0e => "rrc (hl)",
        0xcb0f => "rrc a",
        0xcb10 => "rl b",
        0xcb11 => "rl c",
        0xcb12 => "rl d",
        0xcb13 => "rl e",
        0xcb14 => "rl h",
        0xcb15 => "rl l",
        0xcb16 => "rl (hl)",
        0xcb17 => "rl a",
        0xcb18 => "rr b",
        0xcb19 => "rr c",
        0xcb1a => "rr d",
        0xcb1b => "rr e",
        0xcb1c => "rr h",
        0xcb1d => "rr l",
        0xcb1e => "rr (hl)",
        0xcb1f => "rr a",
        0xcb20 => "sla b",
        0xcb21 => "sla c",
        0xcb22 => "sla d",
        0xcb23 => "sla e",
        0xcb24 => "sla h",
        0xcb25 => "sla l",
        0xcb26 => "sla (hl)",
        0xcb27 => "sla a",
        0xcb28 => "sra b",
        0xcb29 => "sra c",
        0xcb2a => "sra d",
        0xcb2b => "sra e",
        0xcb2c => "sra h",
        0xcb2d => "sra l",
        0xcb2e => "sra (hl)",
        0xcb2f => "sra a",
        0xcb30 => "swap b",
        0xcb31 => "swap c",
        0xcb32 => "swap d",
        0xcb33 => "swap e",
        0xcb34 => "swap h",
        0xcb35 => "swap l",
        0xcb36 => "swap (hl)",
        0xcb37 => "swap a",
        0xcb38 => "srl b",
        0xcb39 => "srl c",
        0xcb3a => "srl d",
        0xcb3b => "srl e",
        0xcb3c => "srl h",
        0xcb3d => "srl l",
        0xcb3e => "srl (hl)",
        0xcb3f => "srl a",
        0xcb40 => "bit 0,b",
        0xcb41 => "bit 0,c",
        0xcb42 => "bit 0,d",
        0xcb43 => "bit 0,e",
        0xcb44 => "bit 0,h",
        0xcb45 => "bit 0,l",
        0xcb46 => "bit 0,(hl)",
        0xcb47 => "bit 0,a",
        0xcb48 => "bit 1,b",
        0xcb49 => "bit 1,c",
        0xcb4a => "bit 1,d",
        0xcb4b => "bit 1,e",
        0xcb4c => "bit 1,h",
        0xcb4d => "bit 1,l",
        0xcb4e => "bit 1,(hl)",
        0xcb4f => "bit 1,a",
        0xcb50 => "bit 2,b",
        0xcb51 => "bit 2,c",
        0xcb52 => "bit 2,d",
        0xcb53 => "bit 2,e",
        0xcb54 => "bit 2,h",
        0xcb55 => "bit 2,l",
        0xcb56 => "bit 2,(hl)",
        0xcb57 => "bit 2,a",
        0xcb58 => "bit 3,b",
        0xcb59 => "bit 3,c",
        0xcb5a => "bit 3,d",
        0xcb5b => "bit 3,e",
        0xcb5c => "bit 3,h",
        0xcb5d => "bit 3,l",
        0xcb5e => "bit 3,(hl)",
        0xcb5f => "bit 3,a",
        0xcb60 => "bit 4,b",
        0xcb61 => "bit 4,c",
        0xcb62 => "bit 4,d",
        0xcb63 => "bit 4,e",
        0xcb64 => "bit 4,h",
        0xcb65 => "bit 4,l",
        0xcb66 => "bit 4,(hl)",
        0xcb67 => "bit 4,a",
        0xcb68 => "bit 5,b",
        0xcb69 => "bit 5,c",
        0xcb6a => "bit 5,d",
        0xcb6b => "bit 5,e",
        0xcb6c => "bit 5,h",
        0xcb6d => "bit 5,l",
        0xcb6e => "bit 5,(hl)",
        0xcb6f => "bit 5,a",
        0xcb70 => "bit 6,b",
        0xcb71 => "bit 6,c",
        0xcb72 => "bit 6,d",
        0xcb73 => "bit 6,e",
        0xcb74 => "bit 6,h",
        0xcb75 => "bit 6,l",
        0xcb76 => "bit 6,(hl)",
        0xcb77 => "bit 6,a",
        0xcb78 => "bit 7,b",
        0xcb79 => "bit 7,c",
        0xcb7a => "bit 7,d",
        0xcb7b => "bit 7,e",
        0xcb7c => "bit 7,h",
        0xcb7d => "bit 7,l",
        0xcb7e => "bit 7,(hl)",
        0xcb7f => "bit 7,a",
        0xcb80 => "res 0,b",
        0xcb81 => "res 0,c",
        0xcb82 => "res 0,d",
        0xcb83 => "res 0,e",
        0xcb84 => "res 0,h",
        0xcb85 => "res 0,l",
        0xcb86 => "res 0,(hl)",
        0xcb87 => "res 0,a",
        0xcb88 => "res 1,b",
        0xcb89 => "res 1,c",
        0xcb8a => "res 1,d",
        0xcb8b => "res 1,e",
        0xcb8c => "res 1,h",
        0xcb8d => "res 1,l",
        0xcb8e => "res 1,(hl)",
        0xcb8f => "res 1,a",
        0xcb90 => "res 2,b",
        0xcb91 => "res 2,c",
        0xcb92 => "res 2,d",
        0xcb93 => "res 2,e",
        0xcb94 => "res 2,h",
        0xcb95 => "res 2,l",
        0xcb96 => "res 2,(hl)",
        0xcb97 => "res 2,a",
        0xcb98 => "res 3,b",
        0xcb99 => "res 3,c",
        0xcb9a => "res 3,d",
        0xcb9b => "res 3,e",
        0xcb9c => "res 3,h",
        0xcb9d => "res 3,l",
        0xcb9e => "res 3,(hl)",
        0xcb9f => "res 3,a",
        0xcba0 => "res 4,b",
        0xcba1 => "res 4,c",
        0xcba2 => "res 4,d",
        0xcba3 => "res 4,e",
        0xcba4 => "res 4,h",
        0xcba5 => "res 4,l",
        0xcba6 => "res 4,(hl)",
        0xcba7 => "res 4,a",
        0xcba8 => "res 5,b",
        0xcba9 => "res 5,c",
        0xcbaa => "res 5,d",
        0xcbab => "res 5,e",
        0xcbac => "res 5,h",
        0xcbad => "res 5,l",
        0xcbae => "res 5,(hl)",
        0xcbaf => "res 5,a",
        0xcbb0 => "res 6,b",
        0xcbb1 => "res 6,c",
        0xcbb2 => "res 6,d",
        0xcbb3 => "res 6,e",
        0xcbb4 => "res 6,h",
        0xcbb5 => "res 6,l",
        0xcbb6 => "res 6,(hl)",
        0xcbb7 => "res 6,a",
        0xcbb8 => "res 7,b",
        0xcbb9 => "res 7,c",
        0xcbba => "res 7,d",
        0xcbbb => "res 7,e",
        0xcbbc => "res 7,h",
        0xcbbd => "res 7,l",
        0xcbbe => "res 7,(hl)",
        0xcbbf => "res 7,a",
        0xcbc0 => "set 0,b",
        0xcbc1 => "set 0,c",
        0xcbc2 => "set 0,d",
        0xcbc3 => "set 0,e",
        0xcbc4 => "set 0,h",
        0xcbc5 => "set 0,l",
        0xcbc6 => "set 0,(hl)",
        0xcbc7 => "set 0,a",
        0xcbc8 => "set 1,b",
        0xcbc9 => "set 1,c",
        0xcbca => "set 1,d",
        0xcbcb => "set 1,e",
        0xcbcc => "set 1,h",
        0xcbcd => "set 1,l",
        0xcbce => "set 1,(hl)",
        0xcbcf => "set 1,a",
        0xcbd0 => "set 2,b",
        0xcbd1 => "set 2,c",
        0xcbd2 => "set 2,d",
        0xcbd3 => "set 2,e",
        0xcbd4 => "set 2,h",
        0xcbd5 => "set 2,l",
        0xcbd6 => "set 2,(hl)",
        0xcbd7 => "set 2,a",
        0xcbd8 => "set 3,b",
        0xcbd9 => "set 3,c",
        0xcbda => "set 3,d",
        0xcbdb => "set 3,e",
        0xcbdc => "set 3,h",
        0xcbdd => "set 3,l",
        0xcbde => "set 3,(hl)",
        0xcbdf => "set 3,a",
        0xcbe0 => "set 4,b",
        0xcbe1 => "set 4,c",
        0xcbe2 => "set 4,d",
        0xcbe3 => "set 4,e",
        0xcbe4 => "set 4,h",
        0xcbe5 => "set 4,l",
        0xcbe6 => "set 4,(hl)",
        0xcbe7 => "set 4,a",
        0xcbe8 => "set 5,b",
        0xcbe9 => "set 5,c",
        0xcbea => "set 5,d",
        0xcbeb => "set 5,e",
        0xcbec => "set 5,h",
        0xcbed => "set 5,l",
        0xcbee => "set 5,(hl)",
        0xcbef => "set 5,a",
        0xcbf0 => "set 6,b",
        0xcbf1 => "set 6,c",
        0xcbf2 => "set 6,d",
        0xcbf3 => "set 6,e",
        0xcbf4 => "set 6,h",
        0xcbf5 => "set 6,l",
        0xcbf6 => "set 6,(hl)",
        0xcbf7 => "set 6,a",
        0xcbf8 => "set 7,b",
        0xcbf9 => "set 7,c",
        0xcbfa => "set 7,d",
        0xcbfb => "set 7,e",
        0xcbfc => "set 7,h",
        0xcbfd => "set 7,l",
        0xcbfe => "set 7,(hl)",
        0xcbff => "set 7,a",
        _ => "(unknown opcode)",
    }
}

/// Return the mnemonic string for the given opcode.
pub fn mnem(code: u16) -> (r: &'static str)
    ensures
        r == mnem_table(code),
{
    match code {
        0x0000 => "nop ",
        0x0001 => "ld bc,d16",
        0x0002 => "ld (bc),a",
        0x0003 => "inc bc",
        0x0004 => "inc b",
        0x0005 => "dec b",
        0x0006 => "ld b,d8",
        0x0007 => "rlca ",
        0x0008 => "ld (a16),sp",
        0x0009 => "add hl,bc",
        0x000a => "ld a,(bc)",
        0x000b => "dec bc",
        0x000c => "inc c",
        0x000d => "dec c",
        0x000e => "ld c,d8",
        0x000f => "rrca ",
        0x0010 => "stop 0",
        0x0011 => "ld de,d16",
        0x0012 => "ld (de),a",
        0x0013 => "inc de",
        0x0014 => "inc d",
        0x0015 => "dec d",
        0x0016 => "ld d,d8",
        0x0017 => "rla ",
        0x0018 => "jr r8",
        0x0019 => "add hl,de",
        0x001a => "ld a,(de)",
        0x001b => "dec de",
        0x001c => "inc e",
        0x001d => "dec e",
        0x001e => "ld e,d8",
        0x001f => "rra ",
        0x0020 => "jr nz,r8",
        0x0021 => "ld hl,d16",
        0x0022 => "ldi (hl),a",
        0x0023 => "inc hl",
        0x0024 => "inc h",
        0x0025 => "dec h",
        0x0026 => "ld h,d8",
        0x0027 => "daa ",
        0x0028 => "jr z,r8",
        0x0029 => "add hl,hl",
        0x002a => "ldi a,(hl)",
        0x002b => "dec hl",
        0x002c => "inc l",
        0x002d => "dec l",
        0x002e => "ld l,d8",
        0x002f => "cpl ",
        0x0030 => "jr nc,r8",
        0x0031 => "ld sp,d16",
        0x0032 => "ldd (hl),a",
        0x0033 => "inc sp",
        0x0034 => "inc (hl)",
        0x0035 => "dec (hl)",
        0x0036 => "ld (hl),d8",
        0x0037 => "scf ",
        0x0038 => "jr cf,r8",
        0x0039 => "add hl,sp",
        0x003a => "ldd a,(hl)",
        0x003b => "dec sp",
        0x003c => "inc a",
        0x003d => "dec a",
        0x003e => "ld a,d8",
        0x003f => "ccf ",
        0x0040 => "ld b,b",
        0x0041 => "ld b,c",
        0x0042 => "ld b,d",
        0x0043 => "ld b,e",
        0x0044 => "ld b,h",
        0x0045 => "ld b,l",
        0x0046 => "ld b,(hl)",
        0x0047 => "ld b,a",
        0x0048 => "ld c,b",
        0x0049 => "ld c,c",
        0x004a => "ld c,d",
        0x004b => "ld c,e",
        0x004c => "ld c,h",
        0x004d => "ld c,l",
        0x004e => "ld c,(hl)",
        0x004f => "ld c,a",
        0x0050 => "ld d,b",
        0x0051 => "ld d,c",
        0x0052 => "ld d,d",
        0x0053 => "ld d,e",
        0x0054 => "ld d,h",
        0x0055 => "ld d,l",
        0x0056 => "ld d,(hl)",
        0x0057 => "ld d,a",
        0x0058 => "ld e,b",
        0x0059 => "ld e,c",
        0x005a => "ld e,d",
        0x005b => "ld e,e",
        0x005c => "ld e,h",
        0x005d => "ld e,l",
        0x005e => "ld e,(hl)",
        0x005f => "ld e,a",
        0x0060 => "ld h,b",
        0x0061 => "ld h,c",
        0x0062 => "ld h,d",
        0x0063 => "ld h,e",
        0x0064 => "ld h,h",
        0x0065 => "ld h,l",
        0x0066 => "ld h,(hl)",
        0x0067 => "ld h,a",
        0x0068 => "ld l,b",
        0x0069 => "ld l,c",
        0x006a => "ld l,d",
        0x006b => "ld l,e",
        0x006c => "ld l,h",
        0x006d => "ld l,l",
        0x006e => "ld l,(hl)",
        0x006f => "ld l,a",
        0x0070 => "ld (hl),b",
        0x0071 => "ld (hl),c",
        0x0072 => "ld (hl),d",
        0x0073 => "ld (hl),e",
        0x0074 => "ld (hl),h",
        0x0075 => "ld (hl),l",
        0x0076 => "halt ",
        0x0077 => "ld (hl),a",
        0x0078 => "ld a,b",
        0x0079 => "ld a,c",
        0x007a => "ld a,d",
        0x007b => "ld a,e",
        0x007c => "ld a,h",
        0x007d => "ld a,l",
        0x007e => "ld a,(hl)",
        0x007f => "ld a,a",
        0x0080 => "add a,b",
        0x0081 => "add a,c",
        0x0082 => "add a,d",
        0x0083 => "add a,e",
        0x0084 => "add a,h",
        0x0085 => "add a,l",
        0x0086 => "add a,(hl)",
        0x0087 => "add a,a",
        0x0088 => "adc a,b",
        0x0089 => "adc a,c",
        0x008a => "adc a,d",
        0x008b => "adc a,e",
        0x008c => "adc a,h",
        0x008d => "adc a,l",
        0x008e => "adc a,(hl)",
        0x008f => "adc a,a",
        0x0090 => "sub b",
        0x0091 => "sub c",
        0x0092 => "sub d",
        0x0093 => "sub e",
        0x0094 => "sub h",
        0x0095 => "sub l",
        0x0096 => "sub (hl)",
        0x0097 => "sub a",
        0x0098 => "sbc a,b",
        0x0099 => "sbc a,c",
        0x009a => "sbc a,d",
        0x009b => "sbc a,e",
        0x009c => "sbc a,h",
        0x009d => "sbc a,l",
        0x009e => "sbc a,(hl)",
        0x009f => "sbc a,a",
        0x00a0 => "and b",
        0x00a1 => "and c",
        0x00a2 => "and d",
        0x00a3 => "and e",
        0x00a4 => "and h",
        0x00a5 => "and l",
        0x00a6 => "and (hl)",
        0x00a7 => "and a",
        0x00a8 => "xor b",
        0x00a9 => "xor c",
        0x00aa => "xor d",
        0x00ab => "xor e",
        0x00ac => "xor h",
        0x00ad => "xor l",
        0x00ae => "xor (hl)",
        0x00af => "xor a",
        0x00b0 => "or b",
        0x00b1 => "or c",
        0x00b2 => "or d",
        0x00b3 => "or e",
        0x00b4 => "or h",
        0x00b5 => "or l",
        0x00b6 => "or (hl)",
        0x00b7 => "or a",
        0x00b8 => "cp b",
        0x00b9 => "cp c",
        0x00ba => "cp d",
        0x00bb => "cp e",
        0x00bc => "cp h",
        0x00bd => "cp l",
        0x00be => "cp (hl)",
        0x00bf => "cp a",
        0x00c0 => "ret nz",
        0x00c1 => "pop bc",
        0x00c2 => "jp nz,a16",
        0x00c3 => "jp a16",
        0x00c4 => "call nz,a16",
        0x00c5 => "push bc",
        0x00c6 => "add a,d8",
        0x00c7 => "rst 0x00",
        0x00c8 => "ret z",
        0x00c9 => "ret ",
        0x00ca => "jp z,a16",
        0x00cb => "prefix cb",
        0x00cc => "call z,a16",
        0x00cd => "call a16",
        0x00ce => "adc a,d8",
        0x00cf => "rst 0x08",
        0x00d0 => "ret nc",
        0x00d1 => "pop de",
        0x00d2 => "jp nc,a16",
        0x00d4 => "call nc,a16",
        0x00d5 => "push de",
        0x00d6 => "sub d8",
        0x00d7 => "rst 0x10",
        0x00d8 => "ret cf",
        0x00d9 => "reti ",
        0x00da => "jp cf,a16",
        0x00dc => "call cf,a16",
        0x00de => "sbc a,d8",
        0x00df => "rst 0x18",
        0x00e0 => "ld (0xff00+a8),a",
        0x00e1 => "pop hl",
        0x00e2 => "ld (0xff00+c),a",
        0x00e5 => "push hl",
        0x00e6 => "and d8",
        0x00e7 => "rst 0x20",
        0x00e8 => "add sp,r8",
        0x00e9 => "jp hl",
        0x00ea => "ld (a16),a",
        0x00ee => "xor d8",
        0x00ef => "rst 0x28",
        0x00f0 => "ld a,(0xff00+a8)",
        0x00f1 => "pop af",
        0x00f2 => "ld a,(0xff00+c)",
        0x00f3 => "di ",
        0x00f5 => "push af",
        0x00f6 => "or d8",
        0x00f7 => "rst 0x30",
        0x00f8 => "ldhl sp,r8",
        0x00f9 => "ld sp,hl",
        0x00fa => "ld a,(a16)",
        0x00fb => "ei ",
        0x00fe => "cp d8",
        0x00ff => "rst 0x38",
        0xcb00 => "rlc b",
        0xcb01 => "rlc c",
        0xcb02 => "rlc d",
        0xcb03 => "rlc e",
        0xcb04 => "rlc h",
        0xcb05 => "rlc l",
        0xcb06 => "rlc (hl)",
        0xcb07 => "rlc a",
        0xcb08 => "rrc b",
        0xcb09 => "rrc c",
        0xcb0a => "rrc d",
        0xcb0b => "rrc e",
        0xcb0c => "rrc h",
        0xcb0d => "rrc l",
        0xcb0e => "rrc (hl)",
        0xcb0f => "rrc a",
        0xcb10 => "rl b",
        0xcb11 => "rl c",
        0xcb12 => "rl d",
        0xcb13 => "rl e",
        0xcb14 => "rl h",
        0xcb15 => "rl l",
        0xcb16 => "rl (hl)",
        0xcb17 => "rl a",
        0xcb18 => "rr b",
        0xcb19 => "rr c",
        0xcb1a => "rr d",
        0xcb1b => "rr e",
        0xcb1c => "rr h",
        0xcb1d => "rr l",
        0xcb1e => "rr (hl)",
        0xcb1f => "rr a",
        0xcb20 => "sla b",
        0xcb21 => "sla c",
        0xcb22 => "sla d",
        0xcb23 => "sla e",
        0xcb24 => "sla h",
        0xcb25 => "sla l",
        0xcb26 => "sla (hl)",
        0xcb27 => "sla a",
        0xcb28 => "sra b",
        0xcb29 => "sra c",
        0xcb2a => "sra d",
        0xcb2b => "sra e",
        0xcb2c => "sra h",
        0xcb2d => "sra l",
        0xcb2e => "sra (hl)",
        0xcb2f => "sra a",
        0xcb30 => "swap b",
        0xcb31 => "swap c",
        0xcb32 => "swap d",
        0xcb33 => "swap e",
        0xcb34 => "swap h",
        0xcb35 => "swap l",
        0xcb36 => "swap (hl)",
        0xcb37 => "swap a",
        0xcb38 => "srl b",
        0xcb39 => "srl c",
        0xcb3a => "srl d",
        0xcb3b => "srl e",
        0xcb3c => "srl h",
        0xcb3d => "srl l",
        0xcb3e => "srl (hl)",
        0xcb3f => "srl a",
        0xcb40 => "bit 0,b",
        0xcb41 => "bit 0,c",
        0xcb42 => "bit 0,d",
        0xcb43 => "bit 0,e",
        0xcb44 => "bit 0,h",
        0xcb45 => "bit 0,l",
        0xcb46 => "bit 0,(hl)",
        0xcb47 => "bit 0,a",
        0xcb48 => "bit 1,b",
        0xcb49 => "bit 1,c",
        0xcb4a => "bit 1,d",
        0xcb4b => "bit 1,e",
        0xcb4c => "bit 1,h",
        0xcb4d => "bit 1,l",
        0xcb4e => "bit 1,(hl)",
        0xcb4f => "bit 1,a",
        0xcb50 => "bit 2,b",
        0xcb51 => "bit 2,c",
        0xcb52 => "bit 2,d",
        0xcb53 => "bit 2,e",
        0xcb54 => "bit 2,h",
        0xcb55 => "bit 2,l",
        0xcb56 => "bit 2,(hl)",
        0xcb57 => "bit 2,a",
        0xcb58 => "bit 3,b",
        0xcb59 => "bit 3,c",
        0xcb5a => "bit 3,d",
        0xcb5b => "bit 3,e",
        0xcb5c => "bit 3,h",
        0xcb5d => "bit 3,l",
        0xcb5e => "bit 3,(hl)",
        0xcb5f => "bit 3,a",
        0xcb60 => "bit 4,b",
        0xcb61 => "bit 4,c",
        0xcb62 => "bit 4,d",
        0xcb63 => "bit 4,e",
        0xcb64 => "bit 4,h",
        0xcb65 => "bit 4,l",
        0xcb66 => "bit 4,(hl)",
        0xcb67 => "bit 4,a",
        0xcb68 => "bit 5,b",
        0xcb69 => "bit 5,c",
        0xcb6a => "bit 5,d",
        0xcb6b => "bit 5,e",
        0xcb6c => "bit 5,h",
        0xcb6d => "bit 5,l",
        0xcb6e => "bit 5,(hl)",
        0xcb6f => "bit 5,a",
        0xcb70 => "bit 6,b",
        0xcb71 => "bit 6,c",
        0xcb72 => "bit 6,d",
        0xcb73 => "bit 6,e",
        0xcb74 => "bit 6,h",
        0xcb75 => "bit 6,l",
        0xcb76 => "bit 6,(hl)",
        0xcb77 => "bit 6,a",
        0xcb78 => "bit 7,b",
        0xcb79 => "bit 7,c",
        0xcb7a => "bit 7,d",
        0xcb7b => "bit 7,e",
        0xcb7c => "bit 7,h",
        0xcb7d => "bit 7,l",
        0xcb7e => "bit 7,(hl)",
        0xcb7f => "bit 7,a",
        0xcb80 => "res 0,b",
        0xcb81 => "res 0,c",
        0xcb82 => "res 0,d",
        0xcb83 => "res 0,e",
        0xcb84 => "res 0,h",
        0xcb85 => "res 0,l",
        0xcb86 => "res 0,(hl)",
        0xcb87 => "res 0,a",
        0xcb88 => "res 1,b",
        0xcb89 => "res 1,c",
        0xcb8a => "res 1,d",
        0xcb8b => "res 1,e",
        0xcb8c => "res 1,h",
        0xcb8d => "res 1,l",
        0xcb8e => "res 1,(hl)",
        0xcb8f => "res 1,a",
        0xcb90 => "res 2,b",
        0xcb91 => "res 2,c",
        0xcb92 => "res 2,d",
        0xcb93 => "res 2,e",
        0xcb94 => "res 2,h",
        0xcb95 => "res 2,l",
        0xcb96 => "res 2,(hl)",
        0xcb97 => "res 2,a",
        0xcb98 => "res 3,b",
        0xcb99 => "res 3,c",
        0xcb9a => "res 3,d",
        0xcb9b => "res 3,e",
        0xcb9c => "res 3,h",
        0xcb9d => "res 3,l",
        0xcb9e => "res 3,(hl)",
        0xcb9f => "res 3,a",
        0xcba0 => "res 4,b",
        0xcba1 => "res 4,c",
        0xcba2 => "res 4,d",
        0xcba3 => "res 4,e",
        0xcba4 => "res 4,h",
        0xcba5 => "res 4,l",
        0xcba6 => "res 4,(hl)",
        0xcba7 => "res 4,a",
        0xcba8 => "res 5,b",
        0xcba9 => "res 5,c",
        0xcbaa => "res 5,d",
        0xcbab => "res 5,e",
        0xcbac => "res 5,h",
        0xcbad => "res 5,l",
        0xcbae => "res 5,(hl)",
        0xcbaf => "res 5,a",
        0xcbb0 => "res 6,b",
        0xcbb1 => "res 6,c",
        0xcbb2 => "res 6,d",
        0xcbb3 => "res 6,e",
        0xcbb4 => "res 6,h",
        0xcbb5 => "res 6,l",
        0xcbb6 => "res 6,(hl)",
        0xcbb7 => "res 6,a",
        0xcbb8 => "res 7,b",
        0xcbb9 => "res 7,c",
        0xcbba => "res 7,d",
        0xcbbb => "res 7,e",
        0xcbbc => "res 7,h",
        0xcbbd => "res 7,l",
        0xcbbe => "res 7,(hl)",
        0xcbbf => "res 7,a",
        0xcbc0 => "set 0,b",
        0xcbc1 => "set 0,c",
        0xcbc2 => "set 0,d",
        0xcbc3 => "set 0,e",
        0xcbc4 => "set 0,h",
        0xcbc5 => "set 0,l",
        0xcbc6 => "set 0,(hl)",
        0xcbc7 => "set 0,a",
        0xcbc8 => "set 1,b",
        0xcbc9 => "set 1,c",
        0xcbca => "set 1,d",
        0xcbcb => "set 1,e",
        0xcbcc => "set 1,h",
        0xcbcd => "set 1,l",
        0xcbce => "set 1,(hl)",
        0xcbcf => "set 1,a",
        0xcbd0 => "set 2,b",
        0xcbd1 => "set 2,c",
        0xcbd2 => "set 2,d",
        0xcbd3 => "set 2,e",
        0xcbd4 => "set 2,h",
        0xcbd5 => "set 2,l",
        0xcbd6 => "set 2,(hl)",
        0xcbd7 => "set 2,a",
        0xcbd8 => "set 3,b",
        0xcbd9 => "set 3,c",
        0xcbda => "set 3,d",
        0xcbdb => "set 3,e",
        0xcbdc => "set 3,h",
        0xcbdd => "set 3,l",
        0xcbde => "set 3,(hl)",
        0xcbdf => "set 3,a",
        0xcbe0 => "set 4,b",
        0xcbe1 => "set 4,c",
        0xcbe2 => "set 4,d",
        0xcbe3 => "set 4,e",
        0xcbe4 => "set 4,h",
        0xcbe5 => "set 4,l",
        0xcbe6 => "set 4,(hl)",
        0xcbe7 => "set 4,a",
        0xcbe8 => "set 5,b",
        0xcbe9 => "set 5,c",
        0xcbea => "set 5,d",
        0xcbeb => "set 5,e",
        0xcbec => "set 5,h",
        0xcbed => "set 5,l",
        0xcbee => "set 5,(hl)",
        0xcbef => "set 5,a",
        0xcbf0 => "set 6,b",
        0xcbf1 => "set 6,c",
        0xcbf2 => "set 6,d",
        0xcbf3 => "set 6,e",
        0xcbf4 => "set 6,h",
        0xcbf5 => "set 6,l",
        0xcbf6 => "set 6,(hl)",
        0xcbf7 => "set 6,a",
        0xcbf8 => "set 7,b",
        0xcbf9 => "set 7,c",
        0xcbfa => "set 7,d",
        0xcbfb => "set 7,e",
        0xcbfc => "set 7,h",
        0xcbfd => "set 7,l",
        0xcbfe => "set 7,(hl)",
        0xcbff => "set 7,a",
        _ => "(unknown opcode)",
    }
}

} // verus!
