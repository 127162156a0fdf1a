//! Entries of the four levels of 64-bit page tables.
//!
//! Every entry is eight bytes. Bits 0 to 5 are the same at every level:
//! present, writable, user-mode, write-through, cache-disabled, accessed.
//! Bit 63 disables execution. Bits 12 to 51 hold a physical address. The
//! levels differ in the rest:
//!
//! | bit      | level 4 | directory pointer / directory | table          |
//! |----------|---------|-------------------------------|----------------|
//! | 6        | -       | dirty                         | dirty          |
//! | 7        | -       | direct map                    | PAT            |
//! | 8        | -       | global                        | global         |
//! | 12       | address | PAT when mapping directly     | address        |
//! | 59 to 62 | -       | protection key                | protection key |
//!
//! A directory-pointer entry that maps directly covers 1 GiB, a directory
//! entry 2 MiB, a table entry 4 KiB; an entry that points at the next table
//! holds a 4 KiB-aligned address.

use vstd::prelude::*;

verus! {

/// The number of entries in a table of any level.
pub const ENTRIES_PER_TABLE: usize = 512;

/// The alignment of a table and of the smallest page.
pub const PAGE_SIZE: u64 = 0x1000;

/// The span of a directory entry that maps directly.
pub const LARGE_PAGE_SIZE: u64 = 0x20_0000;

/// The span of a directory-pointer entry that maps directly.
pub const HUGE_PAGE_SIZE: u64 = 0x4000_0000;

/// The largest protection key.
pub const U4_MAX: u8 = 0x0F;

/// One past the largest physical address an entry can hold.
pub const PHYSICAL_LIMIT: u64 = 0x10_0000_0000_0000;

/// `mask` if `flag` is set, else nothing.
pub open spec fn flag_bit(flag: bool, mask: u64) -> u64 {
    if flag {
        mask
    } else {
        0
    }
}

/// Bits 0 to 5 and bit 63, which every level shares.
pub open spec fn common_bits(
    present: bool,
    writable: bool,
    user_mode: bool,
    write_through: bool,
    cache_disabled: bool,
    accessed: bool,
    execute_disable: bool,
) -> u64 {
    flag_bit(present, 0x01) | flag_bit(writable, 0x02) | flag_bit(user_mode, 0x04) | flag_bit(
        write_through,
        0x08,
    ) | flag_bit(cache_disabled, 0x10) | flag_bit(accessed, 0x20) | flag_bit(
        execute_disable,
        0x8000_0000_0000_0000,
    )
}

/// A protection key in bits 59 to 62; nothing without a key.
pub open spec fn key_bits(protection_key: Option<u8>) -> u64 {
    match protection_key {
        Some(key) => ((key & 0x0F) as u64) << 59,
        None => 0,
    }
}

/// The protection key in bits 59 to 62 of `entry`; a key of zero reads as
/// no key.
pub open spec fn spec_decode_key(entry: u64) -> Option<u8> {
    let key = ((entry >> 59) & 0x0F) as u8;
    if key == 0 {
        None
    } else {
        Some(key)
    }
}

fn bit(flag: bool, mask: u64) -> (r: u64)
    ensures
        r == flag_bit(flag, mask),
{
    if flag {
        mask
    } else {
        0
    }
}

fn key_field(protection_key: Option<u8>) -> (r: u64)
    ensures
        r == key_bits(protection_key),
{
    match protection_key {
        Some(key) => ((key & 0x0F) as u64) << 59,
        None => 0,
    }
}

fn decode_key(entry: u64) -> (r: Option<u8>)
    ensures
        r == spec_decode_key(entry),
{
    let key: u8 = ((entry >> 59) & 0x0F) as u8;
    if key == 0 {
        None
    } else {
        Some(key)
    }
}

/// An entry of the top-level table: it points at a directory-pointer table.
#[derive(Clone, Copy, Debug, PartialEq, Eq)]
pub struct PageMapLevel4EntryBuilder {
    /// The table pointed at is in memory.
    pub present: bool,
    /// Writes are allowed below this entry.
    pub writable: bool,
    /// User-mode accesses are allowed below this entry.
    pub user_mode: bool,
    /// Write-through caching rather than write-back.
    pub write_through: bool,
    /// The table pointed at is not cached.
    pub cache_disabled: bool,
    /// Set by the CPU when the entry is used.
    pub accessed: bool,
    /// The physical address of the directory-pointer table.
    pub address: u64,
    /// Instruction fetches are forbidden below this entry.
    pub execute_disable: bool,
}

impl PageMapLevel4EntryBuilder {
    /// The address is 4 KiB-aligned.
    pub open spec fn valid(self) -> bool {
        self.address % PAGE_SIZE == 0
    }

    /// The entry.
    pub open spec fn bits(self) -> u64 {
        common_bits(
            self.present,
            self.writable,
            self.user_mode,
            self.write_through,
            self.cache_disabled,
            self.accessed,
            self.execute_disable,
        ) | self.address
    }

    /// The fields that `entry` holds.
    pub open spec fn spec_decode(entry: u64) -> PageMapLevel4EntryBuilder {
        PageMapLevel4EntryBuilder {
            present: entry & 0x01 != 0,
            writable: entry & 0x02 != 0,
            user_mode: entry & 0x04 != 0,
            write_through: entry & 0x08 != 0,
            cache_disabled: entry & 0x10 != 0,
            accessed: entry & 0x20 != 0,
            address: entry & 0x000F_FFFF_FFFF_F000,
            execute_disable: entry & 0x8000_0000_0000_0000 != 0,
        }
    }

    /// Tells whether the entry can be built: whether the address is a
    /// multiple of 4096.
    pub fn is_valid(&self) -> (r: bool)
        ensures
            r == self.valid(),
    {
        self.address % PAGE_SIZE == 0
    }

    /// Builds the entry. An address that is no multiple of 4096 is a mistake
    /// of the caller: there is no entry for it.
    pub fn build(self) -> (r: u64)
        requires
            self.valid(),
        ensures
            r == self.bits(),
    {
        bit(self.present, 0x01) | bit(self.writable, 0x02) | bit(self.user_mode, 0x04) | bit(
            self.write_through,
            0x08,
        ) | bit(self.cache_disabled, 0x10) | bit(self.accessed, 0x20) | bit(
            self.execute_disable,
            0x8000_0000_0000_0000,
        ) | self.address
    }

    /// Reads the fields back from an entry.
    pub fn decode(entry: u64) -> (r: PageMapLevel4EntryBuilder)
        ensures
            r == Self::spec_decode(entry),
    {
        PageMapLevel4EntryBuilder {
            present: entry & 0x01 != 0,
            writable: entry & 0x02 != 0,
            user_mode: entry & 0x04 != 0,
            write_through: entry & 0x08 != 0,
            cache_disabled: entry & 0x10 != 0,
            accessed: entry & 0x20 != 0,
            address: entry & 0x000F_FFFF_FFFF_F000,
            execute_disable: entry & 0x8000_0000_0000_0000 != 0,
        }
    }
}

/// An entry of a directory-pointer table: it maps 1 GiB directly or points at
/// a directory.
#[derive(Clone, Copy, Debug, PartialEq, Eq)]
pub struct PageDirectoryPointerTableEntryBuilder {
    /// The page or table is in memory.
    pub present: bool,
    /// Writes are allowed.
    pub writable: bool,
    /// User-mode accesses are allowed.
    pub user_mode: bool,
    /// Write-through caching rather than write-back.
    pub write_through: bool,
    /// The page or table is not cached.
    pub cache_disabled: bool,
    /// Set by the CPU when the entry is used.
    pub accessed: bool,
    /// Set by the CPU when a directly mapped page is written.
    pub dirty: bool,
    /// The entry maps memory itself rather than pointing at a directory.
    pub direct_map: bool,
    /// The translation survives a change of address space.
    pub global: bool,
    /// Selects the memory type of a directly mapped page.
    pub pat: bool,
    /// The base of the mapped memory, or the address of the directory.
    pub address: u64,
    /// The protection key of a directly mapped page, at most [`U4_MAX`].
    pub protection_key: Option<u8>,
    /// Instruction fetches are forbidden.
    pub execute_disable: bool,
}

/// An entry of a directory: it maps 2 MiB directly or points at a table.
#[derive(Clone, Copy, Debug, PartialEq, Eq)]
pub struct PageDirectoryEntryBuilder {
    /// The page or table is in memory.
    pub present: bool,
    /// Writes are allowed.
    pub writable: bool,
    /// User-mode accesses are allowed.
    pub user_mode: bool,
    /// Write-through caching rather than write-back.
    pub write_through: bool,
    /// The page or table is not cached.
    pub cache_disabled: bool,
    /// Set by the CPU when the entry is used.
    pub accessed: bool,
    /// Set by the CPU when a directly mapped page is written.
    pub dirty: bool,
    /// The entry maps memory itself rather than pointing at a table.
    pub direct_map: bool,
    /// The translation survives a change of address space.
    pub global: bool,
    /// Selects the memory type of a directly mapped page.
    pub pat: bool,
    /// The base of the mapped memory, or the address of the table.
    pub address: u64,
    /// The protection key of a directly mapped page, at most [`U4_MAX`].
    pub protection_key: Option<u8>,
    /// Instruction fetches are forbidden.
    pub execute_disable: bool,
}

/// What a directory-pointer or directory entry must be aligned to: `span`
/// when it maps directly, a page when it points at a table.
pub open spec fn granularity(direct_map: bool, span: u64) -> u64 {
    if direct_map {
        span
    } else {
        PAGE_SIZE
    }
}

/// The checks on an entry of the two middle levels.
pub open spec fn middle_valid(
    direct_map: bool,
    pat: bool,
    protection_key: Option<u8>,
    address: u64,
    span: u64,
) -> bool {
    &&& pat ==> direct_map
    &&& protection_key matches Some(key) ==> key <= U4_MAX
    &&& address % granularity(direct_map, span) == 0
}

/// The bits of a directory-pointer or directory entry other than those that
/// every level shares.
pub open spec fn middle_bits(
    dirty: bool,
    direct_map: bool,
    global: bool,
    pat: bool,
    protection_key: Option<u8>,
    address: u64,
) -> u64 {
    flag_bit(dirty, 0x40) | flag_bit(direct_map, 0x80) | flag_bit(global, 0x100) | flag_bit(
        pat,
        0x1000,
    ) | key_bits(protection_key) | address
}

fn middle_is_valid(
    direct_map: bool,
    pat: bool,
    protection_key: Option<u8>,
    address: u64,
    span: u64,
) -> (r: bool)
    requires
        span == HUGE_PAGE_SIZE || span == LARGE_PAGE_SIZE,
    ensures
        r == middle_valid(direct_map, pat, protection_key, address, span),
{
    if pat && !direct_map {
        return false;
    }
    if let Some(key) = protection_key {
        if key > U4_MAX {
            return false;
        }
    }
    let unit: u64 = if direct_map {
        span
    } else {
        PAGE_SIZE
    };
    address % unit == 0
}

fn middle_field(
    dirty: bool,
    direct_map: bool,
    global: bool,
    pat: bool,
    protection_key: Option<u8>,
    address: u64,
) -> (r: u64)
    ensures
        r == middle_bits(dirty, direct_map, global, pat, protection_key, address),
{
    bit(dirty, 0x40) | bit(direct_map, 0x80) | bit(global, 0x100) | bit(pat, 0x1000) | key_field(
        protection_key,
    ) | address
}

impl PageDirectoryPointerTableEntryBuilder {
    /// PAT only on a direct map, a key of at most four bits, and an address
    /// aligned to 1 GiB on a direct map and to 4 KiB otherwise.
    pub open spec fn valid(self) -> bool {
        middle_valid(self.direct_map, self.pat, self.protection_key, self.address, HUGE_PAGE_SIZE)
    }

    /// The entry.
    pub open spec fn bits(self) -> u64 {
        common_bits(
            self.present,
            self.writable,
            self.user_mode,
            self.write_through,
            self.cache_disabled,
            self.accessed,
            self.execute_disable,
        ) | middle_bits(
            self.dirty,
            self.direct_map,
            self.global,
            self.pat,
            self.protection_key,
            self.address,
        )
    }

    /// The fields that `entry` holds. The PAT bit is read only from a direct
    /// map, where the address starts at bit 30.
    pub open spec fn spec_decode(entry: u64) -> PageDirectoryPointerTableEntryBuilder {
        let direct_map = entry & 0x80 != 0;
        PageDirectoryPointerTableEntryBuilder {
            present: entry & 0x01 != 0,
            writable: entry & 0x02 != 0,
            user_mode: entry & 0x04 != 0,
            write_through: entry & 0x08 != 0,
            cache_disabled: entry & 0x10 != 0,
            accessed: entry & 0x20 != 0,
            dirty: entry & 0x40 != 0,
            direct_map,
            global: entry & 0x100 != 0,
            pat: direct_map && entry & 0x1000 != 0,
            address: if direct_map {
                entry & 0x000F_FFFF_C000_0000
            } else {
                entry & 0x000F_FFFF_FFFF_F000
            },
            protection_key: spec_decode_key(entry),
            execute_disable: entry & 0x8000_0000_0000_0000 != 0,
        }
    }

    /// Tells whether the entry can be built: whether PAT is asked for only
    /// on a direct map, the protection key is at most [`U4_MAX`], and the
    /// address is a multiple of 1 GiB (direct map) or of 4096 (pointer to
    /// a directory).
    pub fn is_valid(&self) -> (r: bool)
        ensures
            r == self.valid(),
    {
        middle_is_valid(
            self.direct_map,
            self.pat,
            self.protection_key,
            self.address,
            HUGE_PAGE_SIZE,
        )
    }

    /// Builds the entry.
    ///
    /// PAT without a direct map, a protection key above [`U4_MAX`] and an
    /// address that is no multiple of 1 GiB (direct map) or of 4096
    /// (pointer to a directory) are mistakes of the caller: there is no
    /// entry for them.
    pub fn build(self) -> (r: u64)
        requires
            self.valid(),
        ensures
            r == self.bits(),
    {
        let common: u64 = bit(self.present, 0x01) | bit(self.writable, 0x02) | bit(
            self.user_mode,
            0x04,
        ) | bit(self.write_through, 0x08) | bit(self.cache_disabled, 0x10) | bit(
            self.accessed,
            0x20,
        ) | bit(self.execute_disable, 0x8000_0000_0000_0000);
        common | middle_field(
            self.dirty,
            self.direct_map,
            self.global,
            self.pat,
            self.protection_key,
            self.address,
        )
    }

    /// Reads the fields back from an entry.
    pub fn decode(entry: u64) -> (r: PageDirectoryPointerTableEntryBuilder)
        ensures
            r == Self::spec_decode(entry),
    {
        let direct_map: bool = entry & 0x80 != 0;
        PageDirectoryPointerTableEntryBuilder {
            present: entry & 0x01 != 0,
            writable: entry & 0x02 != 0,
            user_mode: entry & 0x04 != 0,
            write_through: entry & 0x08 != 0,
            cache_disabled: entry & 0x10 != 0,
            accessed: entry & 0x20 != 0,
            dirty: entry & 0x40 != 0,
            direct_map,
            global: entry & 0x100 != 0,
            pat: direct_map && entry & 0x1000 != 0,
            address: if direct_map {
                entry & 0x000F_FFFF_C000_0000
            } else {
                entry & 0x000F_FFFF_FFFF_F000
            },
            protection_key: decode_key(entry),
            execute_disable: entry & 0x8000_0000_0000_0000 != 0,
        }
    }
}

impl PageDirectoryEntryBuilder {
    /// PAT only on a direct map, a key of at most four bits, and an address
    /// aligned to 2 MiB on a direct map and to 4 KiB otherwise.
    pub open spec fn valid(self) -> bool {
        middle_valid(self.direct_map, self.pat, self.protection_key, self.address, LARGE_PAGE_SIZE)
    }

    /// The entry.
    pub open spec fn bits(self) -> u64 {
        common_bits(
            self.present,
            self.writable,
            self.user_mode,
            self.write_through,
            self.cache_disabled,
            self.accessed,
            self.execute_disable,
        ) | middle_bits(
            self.dirty,
            self.direct_map,
            self.global,
            self.pat,
            self.protection_key,
            self.address,
        )
    }

    /// The fields that `entry` holds. The PAT bit is read only from a direct
    /// map, where the address starts at bit 21.
    pub open spec fn spec_decode(entry: u64) -> PageDirectoryEntryBuilder {
        let direct_map = entry & 0x80 != 0;
        PageDirectoryEntryBuilder {
            present: entry & 0x01 != 0,
            writable: entry & 0x02 != 0,
            user_mode: entry & 0x04 != 0,
            write_through: entry & 0x08 != 0,
            cache_disabled: entry & 0x10 != 0,
            accessed: entry & 0x20 != 0,
            dirty: entry & 0x40 != 0,
            direct_map,
            global: entry & 0x100 != 0,
            pat: direct_map && entry & 0x1000 != 0,
            address: if direct_map {
                entry & 0x000F_FFFF_FFE0_0000
            } else {
                entry & 0x000F_FFFF_FFFF_F000
            },
            protection_key: spec_decode_key(entry),
            execute_disable: entry & 0x8000_0000_0000_0000 != 0,
        }
    }

    /// Tells whether the entry can be built: whether PAT is asked for only
    /// on a direct map, the protection key is at most [`U4_MAX`], and the
    /// address is a multiple of 2 MiB (direct map) or of 4096 (pointer to
    /// a table).
    pub fn is_valid(&self) -> (r: bool)
        ensures
            r == self.valid(),
    {
        middle_is_valid(
            self.direct_map,
            self.pat,
            self.protection_key,
            self.address,
            LARGE_PAGE_SIZE,
        )
    }

    /// Builds the entry.
    ///
    /// PAT without a direct map, a protection key above [`U4_MAX`] and an
    /// address that is no multiple of 2 MiB (direct map) or of 4096
    /// (pointer to a table) are mistakes of the caller: there is no
    /// entry for them.
    pub fn build(self) -> (r: u64)
        requires
            self.valid(),
        ensures
            r == self.bits(),
    {
        let common: u64 = bit(self.present, 0x01) | bit(self.writable, 0x02) | bit(
            self.user_mode,
            0x04,
        ) | bit(self.write_through, 0x08) | bit(self.cache_disabled, 0x10) | bit(
            self.accessed,
            0x20,
        ) | bit(self.execute_disable, 0x8000_0000_0000_0000);
        common | middle_field(
            self.dirty,
            self.direct_map,
            self.global,
            self.pat,
            self.protection_key,
            self.address,
        )
    }

    /// Reads the fields back from an entry.
    pub fn decode(entry: u64) -> (r: PageDirectoryEntryBuilder)
        ensures
            r == Self::spec_decode(entry),
    {
        let direct_map: bool = entry & 0x80 != 0;
        PageDirectoryEntryBuilder {
            present: entry & 0x01 != 0,
            writable: entry & 0x02 != 0,
            user_mode: entry & 0x04 != 0,
            write_through: entry & 0x08 != 0,
            cache_disabled: entry & 0x10 != 0,
            accessed: entry & 0x20 != 0,
            dirty: entry & 0x40 != 0,
            direct_map,
            global: entry & 0x100 != 0,
            pat: direct_map && entry & 0x1000 != 0,
            address: if direct_map {
                entry & 0x000F_FFFF_FFE0_0000
            } else {
                entry & 0x000F_FFFF_FFFF_F000
            },
            protection_key: decode_key(entry),
            execute_disable: entry & 0x8000_0000_0000_0000 != 0,
        }
    }
}

/// An entry of a page table: it maps one 4 KiB page.
#[derive(Clone, Copy, Debug, PartialEq, Eq)]
pub struct PageTableEntryBuilder {
    /// The page is in memory.
    pub present: bool,
    /// Writes are allowed.
    pub writable: bool,
    /// User-mode accesses are allowed.
    pub user_mode: bool,
    /// Write-through caching rather than write-back.
    pub write_through: bool,
    /// The page is not cached.
    pub cache_disabled: bool,
    /// Set by the CPU when the page is read.
    pub accessed: bool,
    /// Set by the CPU when the page is written.
    pub dirty: bool,
    /// Selects the memory type of the page.
    pub pat: bool,
    /// The translation survives a change of address space.
    pub global: bool,
    /// The physical address of the page.
    pub address: u64,
    /// The protection key of the page, at most [`U4_MAX`].
    pub protection_key: Option<u8>,
    /// Instruction fetches are forbidden.
    pub execute_disable: bool,
}

impl PageTableEntryBuilder {
    /// A key of at most four bits and a 4 KiB-aligned address.
    pub open spec fn valid(self) -> bool {
        &&& self.protection_key matches Some(key) ==> key <= U4_MAX
        &&& self.address % PAGE_SIZE == 0
    }

    /// The entry.
    pub open spec fn bits(self) -> u64 {
        common_bits(
            self.present,
            self.writable,
            self.user_mode,
            self.write_through,
            self.cache_disabled,
            self.accessed,
            self.execute_disable,
        ) | flag_bit(self.dirty, 0x40) | flag_bit(self.pat, 0x80) | flag_bit(self.global, 0x100)
            | key_bits(self.protection_key) | self.address
    }

    /// The fields that `entry` holds.
    pub open spec fn spec_decode(entry: u64) -> PageTableEntryBuilder {
        PageTableEntryBuilder {
            present: entry & 0x01 != 0,
            writable: entry & 0x02 != 0,
            user_mode: entry & 0x04 != 0,
            write_through: entry & 0x08 != 0,
            cache_disabled: entry & 0x10 != 0,
            accessed: entry & 0x20 != 0,
            dirty: entry & 0x40 != 0,
            pat: entry & 0x80 != 0,
            global: entry & 0x100 != 0,
            address: entry & 0x000F_FFFF_FFFF_F000,
            protection_key: spec_decode_key(entry),
            execute_disable: entry & 0x8000_0000_0000_0000 != 0,
        }
    }

    /// Tells whether the entry can be built: whether the protection key is
    /// at most [`U4_MAX`] and the address is a multiple of 4096.
    pub fn is_valid(&self) -> (r: bool)
        ensures
            r == self.valid(),
    {
        if let Some(key) = self.protection_key {
            if key > U4_MAX {
                return false;
            }
        }
        self.address % PAGE_SIZE == 0
    }

    /// Builds the entry. A protection key above [`U4_MAX`] and an address
    /// that is no multiple of 4096 are mistakes of the caller: there is no
    /// entry for them.
    pub fn build(self) -> (r: u64)
        requires
            self.valid(),
        ensures
            r == self.bits(),
    {
        let common: u64 = bit(self.present, 0x01) | bit(self.writable, 0x02) | bit(
            self.user_mode,
            0x04,
        ) | bit(self.write_through, 0x08) | bit(self.cache_disabled, 0x10) | bit(
            self.accessed,
            0x20,
        ) | bit(self.execute_disable, 0x8000_0000_0000_0000);
        common | bit(self.dirty, 0x40) | bit(self.pat, 0x80) | bit(self.global, 0x100)
            | key_field(self.protection_key) | self.address
    }

    /// Reads the fields back from an entry.
    pub fn decode(entry: u64) -> (r: PageTableEntryBuilder)
        ensures
            r == Self::spec_decode(entry),
    {
        PageTableEntryBuilder {
            present: entry & 0x01 != 0,
            writable: entry & 0x02 != 0,
            user_mode: entry & 0x04 != 0,
            write_through: entry & 0x08 != 0,
            cache_disabled: entry & 0x10 != 0,
            accessed: entry & 0x20 != 0,
            dirty: entry & 0x40 != 0,
            pat: entry & 0x80 != 0,
            global: entry & 0x100 != 0,
            address: entry & 0x000F_FFFF_FFFF_F000,
            protection_key: decode_key(entry),
            execute_disable: entry & 0x8000_0000_0000_0000 != 0,
        }
    }
}

proof fn lemma_level4_bits(
    p: bool,
    w: bool,
    u: bool,
    wt: bool,
    cd: bool,
    a: bool,
    xd: bool,
    address: u64,
    e: u64,
)
    by (bit_vector)
    requires
        address % 0x1000 == 0,
        address < 0x10_0000_0000_0000,
        e == common_bits(p, w, u, wt, cd, a, xd) | address,
    ensures
        (e & 0x01 != 0) == p,
        (e & 0x02 != 0) == w,
        (e & 0x04 != 0) == u,
        (e & 0x08 != 0) == wt,
        (e & 0x10 != 0) == cd,
        (e & 0x20 != 0) == a,
        (e & 0x8000_0000_0000_0000 != 0) == xd,
        e & 0x000F_FFFF_FFFF_F000 == address,
{
}

proof fn lemma_middle_bits(
    p: bool,
    w: bool,
    u: bool,
    wt: bool,
    cd: bool,
    a: bool,
    xd: bool,
    d: bool,
    ps: bool,
    g: bool,
    pat: bool,
    key: u8,
    key_part: u64,
    address: u64,
    span: u64,
    mask: u64,
    e: u64,
)
    by (bit_vector)
    requires
        key <= 0x0F,
        (key == 0 && key_part == 0) || key_part == ((key & 0x0F) as u64) << 59,
        pat ==> ps,
        address % (if ps { span } else { 0x1000 }) == 0,
        address < 0x10_0000_0000_0000,
        (span == 0x4000_0000 && mask == 0x000F_FFFF_C000_0000) || (span == 0x20_0000 && mask
            == 0x000F_FFFF_FFE0_0000),
        e == common_bits(p, w, u, wt, cd, a, xd) | (flag_bit(d, 0x40) | flag_bit(ps, 0x80)
            | flag_bit(g, 0x100) | flag_bit(pat, 0x1000) | key_part | address),
    ensures
        (e & 0x01 != 0) == p,
        (e & 0x02 != 0) == w,
        (e & 0x04 != 0) == u,
        (e & 0x08 != 0) == wt,
        (e & 0x10 != 0) == cd,
        (e & 0x20 != 0) == a,
        (e & 0x40 != 0) == d,
        (e & 0x80 != 0) == ps,
        (e & 0x100 != 0) == g,
        (ps && e & 0x1000 != 0) == pat,
        ((e >> 59) & 0x0F) as u8 == key,
        (e & 0x8000_0000_0000_0000 != 0) == xd,
        (if ps {
            e & mask
        } else {
            e & 0x000F_FFFF_FFFF_F000
        }) == address,
{
}

proof fn lemma_table_bits(
    p: bool,
    w: bool,
    u: bool,
    wt: bool,
    cd: bool,
    a: bool,
    xd: bool,
    d: bool,
    pat: bool,
    g: bool,
    key: u8,
    key_part: u64,
    address: u64,
    e: u64,
)
    by (bit_vector)
    requires
        key <= 0x0F,
        (key == 0 && key_part == 0) || key_part == ((key & 0x0F) as u64) << 59,
        address % 0x1000 == 0,
        address < 0x10_0000_0000_0000,
        e == common_bits(p, w, u, wt, cd, a, xd) | flag_bit(d, 0x40) | flag_bit(pat, 0x80)
            | flag_bit(g, 0x100) | key_part | address,
    ensures
        (e & 0x01 != 0) == p,
        (e & 0x02 != 0) == w,
        (e & 0x04 != 0) == u,
        (e & 0x08 != 0) == wt,
        (e & 0x10 != 0) == cd,
        (e & 0x20 != 0) == a,
        (e & 0x40 != 0) == d,
        (e & 0x80 != 0) == pat,
        (e & 0x100 != 0) == g,
        ((e >> 59) & 0x0F) as u8 == key,
        (e & 0x8000_0000_0000_0000 != 0) == xd,
        e & 0x000F_FFFF_FFFF_F000 == address,
{
}

/// The key as a number: no key packs like a key of zero.
pub open spec fn key_value(protection_key: Option<u8>) -> u8 {
    match protection_key {
        Some(key) => key,
        None => 0,
    }
}

/// A level-4 entry that can be built, with an address below
/// [`PHYSICAL_LIMIT`], decodes back to the fields it was built from.
pub proof fn level4_decode_inverts_build(builder: PageMapLevel4EntryBuilder)
    requires
        builder.valid(),
        builder.address < PHYSICAL_LIMIT,
    ensures
        PageMapLevel4EntryBuilder::spec_decode(builder.bits()) == builder,
{
    lemma_level4_bits(
        builder.present,
        builder.writable,
        builder.user_mode,
        builder.write_through,
        builder.cache_disabled,
        builder.accessed,
        builder.execute_disable,
        builder.address,
        builder.bits(),
    );
}

/// A directory-pointer entry that can be built, with an address below
/// [`PHYSICAL_LIMIT`] and a protection key other than zero, decodes back to
/// the fields it was built from.
pub proof fn directory_pointer_decode_inverts_build(builder: PageDirectoryPointerTableEntryBuilder)
    requires
        builder.valid(),
        builder.address < PHYSICAL_LIMIT,
        builder.protection_key != Some(0u8),
    ensures
        PageDirectoryPointerTableEntryBuilder::spec_decode(builder.bits()) == builder,
{
    lemma_middle_bits(
        builder.present,
        builder.writable,
        builder.user_mode,
        builder.write_through,
        builder.cache_disabled,
        builder.accessed,
        builder.execute_disable,
        builder.dirty,
        builder.direct_map,
        builder.global,
        builder.pat,
        key_value(builder.protection_key),
        key_bits(builder.protection_key),
        builder.address,
        HUGE_PAGE_SIZE,
        0x000F_FFFF_C000_0000,
        builder.bits(),
    );
}

/// A directory entry that can be built, with an address below
/// [`PHYSICAL_LIMIT`] and a protection key other than zero, decodes back to
/// the fields it was built from.
pub proof fn directory_decode_inverts_build(builder: PageDirectoryEntryBuilder)
    requires
        builder.valid(),
        builder.address < PHYSICAL_LIMIT,
        builder.protection_key != Some(0u8),
    ensures
        PageDirectoryEntryBuilder::spec_decode(builder.bits()) == builder,
{
    lemma_middle_bits(
        builder.present,
        builder.writable,
        builder.user_mode,
        builder.write_through,
        builder.cache_disabled,
        builder.accessed,
        builder.execute_disable,
        builder.dirty,
        builder.direct_map,
        builder.global,
        builder.pat,
        key_value(builder.protection_key),
        key_bits(builder.protection_key),
        builder.address,
        LARGE_PAGE_SIZE,
        0x000F_FFFF_FFE0_0000,
        builder.bits(),
    );
}

/// A table entry that can be built, with an address below
/// [`PHYSICAL_LIMIT`] and a protection key other than zero, decodes back to
/// the fields it was built from.
pub proof fn table_decode_inverts_build(builder: PageTableEntryBuilder)
    requires
        builder.valid(),
        builder.address < PHYSICAL_LIMIT,
        builder.protection_key != Some(0u8),
    ensures
        PageTableEntryBuilder::spec_decode(builder.bits()) == builder,
{
    lemma_table_bits(
        builder.present,
        builder.writable,
        builder.user_mode,
        builder.write_through,
        builder.cache_disabled,
        builder.accessed,
        builder.execute_disable,
        builder.dirty,
        builder.pat,
        builder.global,
        key_value(builder.protection_key),
        key_bits(builder.protection_key),
        builder.address,
        builder.bits(),
    );
}

/// No entry of any level is built from an address that is not a multiple of
/// 4096: such an address does not meet what `build` asks of its caller,
/// whatever the flags are.
pub proof fn misaligned_address_is_rejected(
    level4: PageMapLevel4EntryBuilder,
    directory_pointer: PageDirectoryPointerTableEntryBuilder,
    directory: PageDirectoryEntryBuilder,
    table: PageTableEntryBuilder,
)
    ensures
        level4.address % 4096 != 0 ==> !level4.valid(),
        directory_pointer.address % 4096 != 0 ==> !directory_pointer.valid(),
        directory.address % 4096 != 0 ==> !directory.valid(),
        table.address % 4096 != 0 ==> !table.valid(),
{
    let a = directory_pointer.address;
    assert(a % 0x4000_0000 == 0 ==> a % 4096 == 0) by (bit_vector);
    let b = directory.address;
    assert(b % 0x20_0000 == 0 ==> b % 4096 == 0) by (bit_vector);
}

/// One table of any level: 512 entries, to be placed at a 4 KiB boundary.
#[derive(Clone, Copy, Debug, PartialEq, Eq)]
pub struct PageMap(pub [u64; 512]);

impl PageMap {
    /// A table in which no entry is present.
    pub fn new() -> (r: PageMap)
        ensures
            forall|i: int| 0 <= i < 512 ==> r.0[i] == 0,
    {
        PageMap([0u64; 512])
    }
}

/// The tables that map the low 512 GiB onto themselves.
#[derive(Clone, Copy, Debug, PartialEq, Eq)]
pub struct PageTables {
    /// The top-level table, whose address goes into CR3.
    pub level4: PageMap,
    /// The directory-pointer table that the first level-4 entry points at.
    pub directory_pointers: PageMap,
}

/// The directory-pointer entry that maps the `index`-th GiB onto itself,
/// present and writable.
pub open spec fn identity_entry(index: int) -> PageDirectoryPointerTableEntryBuilder {
    PageDirectoryPointerTableEntryBuilder {
        present: true,
        writable: true,
        user_mode: false,
        write_through: false,
        cache_disabled: false,
        accessed: false,
        dirty: false,
        direct_map: true,
        global: false,
        pat: false,
        address: (index * HUGE_PAGE_SIZE) as u64,
        protection_key: None,
        execute_disable: false,
    }
}

/// The level-4 entry that points at the directory-pointer table at `address`,
/// present and writable.
pub open spec fn pointer_entry(address: u64) -> PageMapLevel4EntryBuilder {
    PageMapLevel4EntryBuilder {
        present: true,
        writable: true,
        user_mode: false,
        write_through: false,
        cache_disabled: false,
        accessed: false,
        address,
        execute_disable: false,
    }
}

/// Where a virtual address leads, and what may be done there.
#[derive(Clone, Copy, Debug, PartialEq, Eq)]
pub struct Translation {
    /// The physical address.
    pub physical: u64,
    /// Writes are allowed at every level of the walk.
    pub writable: bool,
    /// Instruction fetches are allowed at every level of the walk.
    pub executable: bool,
}

impl PageTables {
    /// The tables are the identity map, for a directory-pointer table that
    /// lives at `directory_pointers_address`.
    pub open spec fn is_identity_map(self, directory_pointers_address: u64) -> bool {
        &&& self.level4.0[0] == pointer_entry(directory_pointers_address).bits()
        &&& forall|i: int| 1 <= i < 512 ==> self.level4.0[i] == 0
        &&& forall|i: int| 0 <= i < 512 ==> self.directory_pointers.0[i] == identity_entry(i).bits()
    }

    /// The walk that the CPU makes for `virtual_address`, with the
    /// directory-pointer table at `directory_pointers_address`: bits 39 to 47
    /// pick the level-4 entry, bits 30 to 38 the directory-pointer entry, and
    /// the low 30 bits are the offset into the 1 GiB page. `None` where an
    /// entry is absent, where the level-4 entry points elsewhere, or where the
    /// directory-pointer entry does not map directly.
    pub open spec fn spec_translate(
        self,
        directory_pointers_address: u64,
        virtual_address: u64,
    ) -> Option<Translation> {
        let top = PageMapLevel4EntryBuilder::spec_decode(
            self.level4.0[((virtual_address >> 39) & 0x1FF) as int],
        );
        let middle = PageDirectoryPointerTableEntryBuilder::spec_decode(
            self.directory_pointers.0[((virtual_address >> 30) & 0x1FF) as int],
        );
        if virtual_address < 0x1_0000_0000_0000 && top.present && top.address
            == directory_pointers_address && middle.present && middle.direct_map {
            Some(
                Translation {
                    physical: (middle.address | (virtual_address & 0x3FFF_FFFF)) as u64,
                    writable: top.writable && middle.writable,
                    executable: !top.execute_disable && !middle.execute_disable,
                },
            )
        } else {
            None
        }
    }

    /// Walks the tables for `virtual_address`, as the CPU would with the
    /// directory-pointer table at `directory_pointers_address`.
    pub fn translate(&self, directory_pointers_address: u64, virtual_address: u64) -> (r: Option<
        Translation,
    >)
        ensures
            r == self.spec_translate(directory_pointers_address, virtual_address),
    {
        let top_index: usize = ((virtual_address >> 39) & 0x1FF) as usize;
        let middle_index: usize = ((virtual_address >> 30) & 0x1FF) as usize;
        assert(((virtual_address >> 39) & 0x1FF) < 512 && ((virtual_address >> 30) & 0x1FF) < 512)
            by (bit_vector);
        let top = PageMapLevel4EntryBuilder::decode(self.level4.0[top_index]);
        let middle = PageDirectoryPointerTableEntryBuilder::decode(
            self.directory_pointers.0[middle_index],
        );
        if virtual_address < 0x1_0000_0000_0000 && top.present && top.address
            == directory_pointers_address && middle.present && middle.direct_map {
            Some(
                Translation {
                    physical: middle.address | (virtual_address & 0x3FFF_FFFF),
                    writable: top.writable && middle.writable,
                    executable: !top.execute_disable && !middle.execute_disable,
                },
            )
        } else {
            None
        }
    }
}

proof fn lemma_identity_walk(virtual_address: u64)
    by (bit_vector)
    requires
        virtual_address < 0x80_0000_0000,
    ensures
        (virtual_address >> 39) & 0x1FF == 0,
        (virtual_address >> 30) & 0x1FF < 512,
        ((((virtual_address >> 30) & 0x1FF) * 0x4000_0000) as u64) | (virtual_address
            & 0x3FFF_FFFF) == virtual_address,
        ((virtual_address >> 30) & 0x1FF) * 0x4000_0000 < 0x80_0000_0000,
        (((virtual_address >> 30) & 0x1FF) * 0x4000_0000) % 0x4000_0000 == 0,
{
}

/// In the identity map every address below 512 GiB leads to itself, and may
/// be read, written and executed.
pub proof fn identity_map_translates_to_itself(
    tables: PageTables,
    directory_pointers_address: u64,
    virtual_address: u64,
)
    requires
        tables.is_identity_map(directory_pointers_address),
        directory_pointers_address % PAGE_SIZE == 0,
        directory_pointers_address < PHYSICAL_LIMIT,
        virtual_address < 512 * HUGE_PAGE_SIZE,
    ensures
        tables.spec_translate(directory_pointers_address, virtual_address) == Some(
            Translation { physical: virtual_address, writable: true, executable: true },
        ),
{
    lemma_identity_walk(virtual_address);
    let index = ((virtual_address >> 30) & 0x1FF) as int;
    level4_decode_inverts_build(pointer_entry(directory_pointers_address));
    directory_pointer_decode_inverts_build(identity_entry(index));
}

/// Builds the tables that map the low 512 GiB of physical memory onto
/// themselves, readable, writable and executable, in 1 GiB pages. The
/// directory-pointer table will live at `directory_pointers_address`, which
/// the first level-4 entry points at and which is a multiple of 4096.
pub fn build_page_tables(directory_pointers_address: u64) -> (r: PageTables)
    requires
        directory_pointers_address % PAGE_SIZE == 0,
    ensures
        r.is_identity_map(directory_pointers_address),
{
    let pointer = PageMapLevel4EntryBuilder {
        present: true,
        writable: true,
        user_mode: false,
        write_through: false,
        cache_disabled: false,
        accessed: false,
        address: directory_pointers_address,
        execute_disable: false,
    };
    let mut level4: [u64; 512] = [0u64;512];
    level4[0] = pointer.build();
    let mut directory_pointers: [u64; 512] = [0u64;512];
    let mut index: usize = 0;
    while index < 512
        invariant
            index <= 512,
            forall|i: int| 0 <= i < index ==> directory_pointers[i] == identity_entry(i).bits(),
        decreases 512 - index,
    {
        let builder = PageDirectoryPointerTableEntryBuilder {
            present: true,
            writable: true,
            user_mode: false,
            write_through: false,
            cache_disabled: false,
            accessed: false,
            dirty: false,
            direct_map: true,
            global: false,
            pat: false,
            address: index as u64 * HUGE_PAGE_SIZE,
            protection_key: None,
            execute_disable: false,
        };
        assert(builder == identity_entry(index as int));
        assert(builder.valid());
        directory_pointers[index] = builder.build();
        index += 1;
    }
    PageTables { level4: PageMap(level4), directory_pointers: PageMap(directory_pointers) }
}

} // verus!
