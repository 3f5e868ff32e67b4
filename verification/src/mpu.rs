use vstd::prelude::*;
use crate::fault::Fault;

verus! {

broadcast use vstd::array::group_array_axioms;

pub const MEMORY_PROTECTION_UNIT_BEGIN: u32 = 0xE000ED90;

pub const MEMORY_PROTECTION_UNIT_END: u32 = 0xE000EDA4;

pub const MEMORY_PROTECTION_UNIT_LAST: u32 = MEMORY_PROTECTION_UNIT_END - 1;

pub const TYPE_REGISTER: u32 = 0xE000ED90;

pub const CONTROL_REGISTER: u32 = 0xE000ED94;

pub const REGION_NUMBER_REGISTER: u32 = 0xE000ED98;

pub const REGION_BASE_ADDRESS_REGISTER: u32 = 0xE000ED9C;

pub const REGION_ATTRIBUTES_AND_SIZE_REGISTER: u32 = 0xE000EDA0;

/// XN = 0 (no Execute Never), AP = 3 (Full Access), TEX = 0, S = 1, C = 1, B = 0 (recommended
/// attributes for internal SRAM, see Section 10.23.9.1 p209 of the Atmel SAM3X Datasheet).
pub const SUPPORTED_ATTRIBUTES: u16 = 0x0306;

/// The access rights are computed for chunks of 32 bytes.
pub const LOG2_CHUNK_SIZE: u32 = 5;

/// The number of 32 bytes chunks in the 4GB address space.
pub const CHUNK_COUNT: u32 = 0x8000000;

/// The number of words of the access bits (one bit per chunk).
pub const ACCESS_WORD_COUNT: usize = 0x400000;

/// The first access bits word of the Private Peripheral Bus (0xE0000000).
pub const PRIVATE_PERIPHERAL_BUS_START: usize = 0x380000;

/// The access bits word just after the Private Peripheral Bus (0xE0100000).
pub const PRIVATE_PERIPHERAL_BUS_END: usize = 0x380400;

/// An MPU memory region.
#[derive(Clone, Copy)]
pub struct MemoryRegion {
    pub enable: bool,
    pub base_address: u32,
    pub size: u8,
    pub attributes: u16,
    pub disabled_subregions: u8,
}

impl MemoryRegion {
    pub fn default() -> (r: Self)
        ensures
            r == Self::zero(),
    {
        Self { enable: false, base_address: 0, size: 0, attributes: 0, disabled_subregions: 0 }
    }

    /// A disabled region with all its fields equal to zero.
    pub open spec fn zero() -> Self {
        Self { enable: false, base_address: 0, size: 0, attributes: 0, disabled_subregions: 0 }
    }

    /// The base 2 logarithm of the region size.
    pub open spec fn log2_size(self) -> u32 {
        (self.size + 1) as u32
    }

    /// Whether this region is disabled, or enabled with supported attributes, a size of at least
    /// 32 bytes, and no disabled sub-regions if its size is less than 256 bytes.
    pub open spec fn valid(self) -> bool {
        self.enable ==> {
            &&& self.attributes == SUPPORTED_ATTRIBUTES
            &&& self.size < 32
            &&& self.log2_size() >= LOG2_CHUNK_SIZE
            &&& (self.log2_size() < LOG2_CHUNK_SIZE + 3 ==> self.disabled_subregions == 0)
        }
    }

    /// The first chunk of the region (the region is aligned to its size).
    pub open spec fn first_chunk(self) -> u32 {
        let n = self.log2_size();
        if n >= 32 {
            0
        } else {
            (self.base_address >> n) << ((n - LOG2_CHUNK_SIZE) as u32)
        }
    }

    /// The number of chunks of the region.
    pub open spec fn chunk_count(self) -> u32 {
        1u32 << ((self.log2_size() - LOG2_CHUNK_SIZE) as u32)
    }

    /// The number of chunks per sub-region (each region has 8 sub-regions), or 0 if a sub-region
    /// is smaller than a chunk.
    pub open spec fn chunks_per_subregion(self) -> u32 {
        (1u32 << ((self.log2_size() - 3) as u32)) >> LOG2_CHUNK_SIZE
    }

    /// Whether the region grants access to the chunk `chunk`.
    pub open spec fn contains(self, chunk: int) -> bool {
        let first = self.first_chunk();
        let per_subregion = self.chunks_per_subregion();
        &&& self.enable
        &&& first <= chunk < first + self.chunk_count()
        &&& (per_subregion == 0 || self.disabled_subregions & (1u8 << ((chunk - first)
            / per_subregion as int) as u8) == 0)
    }
}

/// Whether one of the first `count` regions of `regions` grants access to `chunk`.
pub open spec fn any_region_contains(regions: Seq<MemoryRegion>, count: int, chunk: int) -> bool
    decreases count,
{
    if count <= 0 {
        false
    } else {
        any_region_contains(regions, count - 1, chunk) || regions[count - 1].contains(chunk)
    }
}

/// Whether `chunk` is in the Private Peripheral Bus (0xE00xxxxx), to which the MPU always permits
/// access.
pub open spec fn in_private_peripheral_bus(chunk: int) -> bool {
    PRIVATE_PERIPHERAL_BUS_START <= chunk / 32 < PRIVATE_PERIPHERAL_BUS_END
}

/// Whether the MPU regions `regions`, when enabled, grant access to `chunk`.
pub open spec fn permitted(regions: Seq<MemoryRegion>, chunk: int) -> bool {
    in_private_peripheral_bus(chunk) || any_region_contains(regions, 8, chunk)
}

/// The access bit of `chunk` in `bits`.
pub open spec fn access_bit(bits: Seq<u32>, chunk: int) -> bool {
    (bits[chunk / 32] >> (chunk % 32) as u32) & 1 == 1
}

/// The MemoryProtectionUnit (MPU). See section 10.23, p197 of the Atmel SAM3X Datasheet.
///
/// The access rights are cached in one bit per 32 bytes chunk of the 4GB address space. This cache
/// is updated lazily, on the first address validation after the regions have changed.
pub struct MemoryProtectionUnit {
    pub enable: bool,
    pub background_region_enable: bool,
    pub region_number: u32,
    pub regions: [MemoryRegion; 8],
    pub old_regions: [MemoryRegion; 8],
    pub access_bits: Vec<u32>,
    pub is_dirty: bool,
}

/// Whether all the regions are valid.
pub open spec fn all_valid(regions: Seq<MemoryRegion>) -> bool {
    forall|i: int| 0 <= i < regions.len() ==> #[trigger] regions[i].valid()
}

/// The logical state of an MPU, without its cache.
pub struct MpuState {
    pub enable: bool,
    pub background_region_enable: bool,
    pub region_number: u32,
    pub regions: Seq<MemoryRegion>,
}

impl MpuState {
    /// The value read from the register at `address`.
    pub open spec fn read_value(self, address: u32) -> Result<u32, Fault> {
        let region = self.regions[self.region_number as int];
        if address == TYPE_REGISTER {
            Ok(0x800u32)
        } else if address == CONTROL_REGISTER {
            Ok(
                ((if self.background_region_enable {
                    4u32
                } else {
                    0
                }) | (if self.enable {
                    1u32
                } else {
                    0
                })) as u32,
            )
        } else if address == REGION_NUMBER_REGISTER {
            Ok(self.region_number)
        } else if address == REGION_BASE_ADDRESS_REGISTER {
            Ok(region.base_address | self.region_number)
        } else if address == REGION_ATTRIBUTES_AND_SIZE_REGISTER {
            Ok(
                ((region.attributes as u32) << 16u32) | ((region.disabled_subregions as u32)
                    << 8u32) | ((region.size as u32) << 1u32) | (if region.enable {
                    1u32
                } else {
                    0
                }),
            )
        } else {
            Err(Fault::UnsupportedRegister(address))
        }
    }

    /// The result of writing `value` at `address`.
    pub open spec fn write_result(self, address: u32, value: u32) -> Result<(), Fault> {
        if address == TYPE_REGISTER {
            Ok(())
        } else if address == CONTROL_REGISTER {
            if value & 2 != 0 {
                Err(Fault::UnsupportedValue(address, value))
            } else {
                Ok(())
            }
        } else if address == REGION_NUMBER_REGISTER {
            if value & 0xFF >= 8 {
                Err(Fault::UnsupportedValue(address, value))
            } else {
                Ok(())
            }
        } else if address == REGION_BASE_ADDRESS_REGISTER {
            if value & 0x10 != 0 && value & 0xF >= 8 {
                Err(Fault::UnsupportedValue(address, value))
            } else {
                Ok(())
            }
        } else if address == REGION_ATTRIBUTES_AND_SIZE_REGISTER {
            let base = self.regions[self.region_number as int].base_address;
            if MemoryProtectionUnit::region_from_attributes(base, value).valid() {
                Ok(())
            } else {
                Err(Fault::UnsupportedValue(address, value))
            }
        } else {
            Err(Fault::UnsupportedRegister(address))
        }
    }

    /// The logical state after a supported write of `value` at `address`.
    pub open spec fn after_write(self, address: u32, value: u32) -> MpuState {
        let s = self;
        if self.write_result(address, value) is Err {
            s
        } else if address == CONTROL_REGISTER {
            MpuState { enable: value & 1 != 0, background_region_enable: value & 4 != 0, ..s }
        } else if address == REGION_NUMBER_REGISTER {
            MpuState { region_number: value & 0xFF, ..s }
        } else if address == REGION_BASE_ADDRESS_REGISTER {
            let number = if value & 0x10 != 0 {
                value & 0xF
            } else {
                self.region_number
            };
            let region = self.regions[number as int];
            MpuState {
                region_number: number,
                regions: s.regions.update(
                    number as int,
                    MemoryRegion { base_address: value & 0xFFFFFFE0, ..region },
                ),
                ..s
            }
        } else if address == REGION_ATTRIBUTES_AND_SIZE_REGISTER {
            let base = self.regions[self.region_number as int].base_address;
            MpuState {
                regions: s.regions.update(
                    self.region_number as int,
                    MemoryProtectionUnit::region_from_attributes(base, value),
                ),
                ..s
            }
        } else {
            s
        }
    }

    /// Whether an access at `address` is permitted.
    pub open spec fn permits(self, address: u32, is_privileged: bool) -> bool {
        !self.enable || (is_privileged && self.background_region_enable) || permitted(
            self.regions,
            (address / 32) as int,
        )
    }
}

impl MemoryProtectionUnit {
    pub open spec fn view(self) -> MpuState {
        MpuState {
            enable: self.enable,
            background_region_enable: self.background_region_enable,
            region_number: self.region_number,
            regions: self.regions@,
        }
    }

    /// The access bits cache the permissions of the regions (of the old regions, if the regions
    /// have changed since the last update of the cache).
    pub open spec fn inv(self) -> bool {
        &&& self.access_bits@.len() == ACCESS_WORD_COUNT
        &&& self.region_number < 8
        &&& all_valid(self.regions@)
        &&& all_valid(self.old_regions@)
        &&& forall|chunk: int|
            0 <= chunk < CHUNK_COUNT ==> #[trigger] access_bit(self.access_bits@, chunk) == permitted(
                if self.is_dirty {
                    self.old_regions@
                } else {
                    self.regions@
                },
                chunk,
            )
    }

    pub fn uninitialized() -> (r: Self)
        ensures
            !r.enable && !r.background_region_enable && r.region_number == 0 && !r.is_dirty,
            r.access_bits@.len() == 0,
    {
        Self {
            enable: false,
            background_region_enable: false,
            region_number: 0,
            regions: [MemoryRegion::default();8],
            old_regions: [MemoryRegion::default();8],
            access_bits: Vec::new(),
            is_dirty: false,
        }
    }

    pub fn new() -> (r: Self)
        ensures
            r.inv(),
            r.view() == (MpuState {
                enable: false,
                background_region_enable: false,
                region_number: 0,
                regions: Seq::new(8, |i: int| MemoryRegion::zero()),
            }),
            !r.is_dirty,
    {
        let mut result = Self::uninitialized();
        result.reset();
        result
    }

    /// Whether `address` is a register that can be read.
    pub fn supports_read(&self, address: u32) -> (r: bool)
        ensures
            r == self.view().read_value(address) is Ok,
    {
        address == TYPE_REGISTER || address == CONTROL_REGISTER || address
            == REGION_NUMBER_REGISTER || address == REGION_BASE_ADDRESS_REGISTER || address
            == REGION_ATTRIBUTES_AND_SIZE_REGISTER
    }

    /// The value read from the register at `address`.
    pub open spec fn read_value(self, address: u32) -> Result<u32, Fault> {
        self.view().read_value(address)
    }

    pub fn get32_aligned(&self, address: u32) -> (r: Result<u32, Fault>)
        requires
            self.read_value(address) is Ok,
            self.region_number < 8,
        ensures
            r == self.read_value(address),
    {
        let region = &self.regions[self.region_number as usize];
        if address == TYPE_REGISTER {
            Ok(0x00000800)
        } else if address == CONTROL_REGISTER {
            Ok((if self.background_region_enable {
                4
            } else {
                0
            }) | (if self.enable {
                1
            } else {
                0
            }))
        } else if address == REGION_NUMBER_REGISTER {
            Ok(self.region_number)
        } else if address == REGION_BASE_ADDRESS_REGISTER {
            Ok(region.base_address | self.region_number)
        } else if address == REGION_ATTRIBUTES_AND_SIZE_REGISTER {
            Ok(((region.attributes as u32) << 16u32) | ((region.disabled_subregions as u32) << 8u32)
                | ((region.size as u32) << 1u32) | (if region.enable {
                1
            } else {
                0
            }))
        } else {
            Err(Fault::UnsupportedRegister(address))
        }
    }

    /// The region described by `value` written in the Region Attributes and Size register.
    pub open spec fn region_from_attributes(base_address: u32, value: u32) -> MemoryRegion {
        MemoryRegion {
            enable: value & 1 != 0,
            base_address,
            size: ((value >> 1u32) & 0x1F) as u8,
            attributes: (value >> 16u32) as u16,
            disabled_subregions: (value >> 8u32) as u8,
        }
    }

    /// The result of writing `value` at `address`.
    pub open spec fn write_result(self, address: u32, value: u32) -> Result<(), Fault> {
        self.view().write_result(address, value)
    }

    /// The logical state after a supported write of `value` at `address`.
    pub open spec fn after_write(self, address: u32, value: u32) -> MpuState {
        self.view().after_write(address, value)
    }

    /// Checks a write of `value` at `address`: values that select features which are not
    /// emulated (the hard fault handler bit of the control register, a region number above 7,
    /// unsupported region attributes, sizes or subregions), and unknown registers, are refused.
    pub fn check_write(&self, address: u32, value: u32) -> (r: Result<(), Fault>)
        requires
            self.inv(),
        ensures
            r == self.write_result(address, value),
    {
        if address == TYPE_REGISTER {
            Ok(())
        } else if address == CONTROL_REGISTER {
            if (value & 2) != 0 {
                Err(Fault::UnsupportedValue(address, value))
            } else {
                Ok(())
            }
        } else if address == REGION_NUMBER_REGISTER {
            if value & 0xFF >= 8 {
                Err(Fault::UnsupportedValue(address, value))
            } else {
                Ok(())
            }
        } else if address == REGION_BASE_ADDRESS_REGISTER {
            if (value & 0x10) != 0 && (value & 0xF) >= 8 {
                Err(Fault::UnsupportedValue(address, value))
            } else {
                Ok(())
            }
        } else if address == REGION_ATTRIBUTES_AND_SIZE_REGISTER {
            let number = self.region_number as usize;
            let size = (value >> 1) & 0x1F;
            assert(size <= 31) by (bit_vector)
                requires
                    size == (value >> 1) & 0x1F,
            ;
            let region = MemoryRegion {
                enable: value & 1 != 0,
                base_address: self.regions[number].base_address,
                size: size as u8,
                attributes: (value >> 16) as u16,
                disabled_subregions: (value >> 8) as u8,
            };
            if region.enable {
                let n = region.size + 1;
                if region.attributes != SUPPORTED_ATTRIBUTES || n < 5 || (n < 8
                    && region.disabled_subregions != 0) {
                    return Err(Fault::UnsupportedValue(address, value));
                }
            }
            Ok(())
        } else {
            Err(Fault::UnsupportedRegister(address))
        }
    }

    /// Writes the supported `value` at `address` (see `check_write`).
    pub fn set32_aligned(&mut self, address: u32, value: u32) -> (r: Result<(), Fault>)
        requires
            old(self).inv(),
            old(self).write_result(address, value) is Ok,
        ensures
            r == Ok::<(), Fault>(()),
            r is Err ==> final(self).view() == old(self).view(),
            r == old(self).write_result(address, value),
            final(self).view() == old(self).after_write(address, value),
            final(self).inv(),
    {
        if address == TYPE_REGISTER {
            Ok(())
        } else if address == CONTROL_REGISTER {
            if (value & 2) != 0 {
                return Err(Fault::UnsupportedValue(address, value));
            }
            self.enable = (value & 1) != 0;
            self.background_region_enable = (value & 4) != 0;
            Ok(())
        } else if address == REGION_NUMBER_REGISTER {
            let region_number = value & 0xFF;
            if region_number >= 8 {
                return Err(Fault::UnsupportedValue(address, value));
            }
            self.region_number = region_number;
            Ok(())
        } else if address == REGION_BASE_ADDRESS_REGISTER {
            if (value & 0x10) != 0 && (value & 0xF) >= 8 {
                return Err(Fault::UnsupportedValue(address, value));
            }
            self.set_dirty();
            if (value & 0x10) != 0 {
                self.region_number = value & 0xF;
            }
            let number = self.region_number as usize;
            let mut region = self.regions[number];
            assert(self.regions@[number as int].valid());
            region.base_address = value & 0xFFFFFFE0;
            self.regions[number] = region;
            Ok(())
        } else if address == REGION_ATTRIBUTES_AND_SIZE_REGISTER {
            let number = self.region_number as usize;
            let size = (value >> 1) & 0x1F;
            assert(size <= 31) by (bit_vector)
                requires
                    size == (value >> 1) & 0x1F,
            ;
            let region = MemoryRegion {
                enable: value & 1 != 0,
                base_address: self.regions[number].base_address,
                size: size as u8,
                attributes: (value >> 16) as u16,
                disabled_subregions: (value >> 8) as u8,
            };
            if region.enable {
                let n = region.size + 1;
                if region.attributes != SUPPORTED_ATTRIBUTES || n < 5 || (n < 8
                    && region.disabled_subregions != 0) {
                    return Err(Fault::UnsupportedValue(address, value));
                }
            }
            self.set_dirty();
            self.regions[number] = region;
            Ok(())
        } else {
            Err(Fault::UnsupportedRegister(address))
        }
    }

    /// Validates an access at `address`, updating the access bits first if needed.
    #[inline]
    pub fn validate_address(&mut self, address: u32, is_privileged: bool) -> (r: bool)
        requires
            old(self).inv(),
        ensures
            r == old(self).view().permits(address, is_privileged),
            final(self).view() == old(self).view(),
            final(self).inv(),
    {
        if !self.enable || (is_privileged && self.background_region_enable) {
            return true;
        }
        if self.is_dirty {
            self.update_access_bits();
        }
        let chunk = address / 32;
        let word = self.access_bits[(chunk / 32) as usize];
        let bit = chunk % 32;
        proof {
            assert(access_bit(self.access_bits@, chunk as int) == permitted(
                self.regions@,
                chunk as int,
            ));
            assert(word & (1u32 << bit) != 0 <==> (word >> bit) & 1 == 1) by (bit_vector)
                requires
                    bit < 32,
            ;
        }
        word & (1u32 << bit) != 0
    }

    pub fn reset(&mut self)
        ensures
            final(self).inv(),
            final(self).view() == (MpuState {
                enable: false,
                background_region_enable: false,
                region_number: 0,
                regions: Seq::new(8, |i: int| MemoryRegion::zero()),
            }),
            !final(self).is_dirty,
    {
        self.enable = false;
        self.background_region_enable = false;
        self.region_number = 0;
        self.regions = [MemoryRegion::default();8];
        self.old_regions = [MemoryRegion::default();8];
        self.access_bits = vec![0u32; ACCESS_WORD_COUNT];
        self.is_dirty = false;
        proof {
            assert(self.regions@ =~= Seq::new(8, |i: int| MemoryRegion::zero()));
            assert forall|chunk: int| 0 <= chunk < CHUNK_COUNT implies !#[trigger] access_bit(
                self.access_bits@,
                chunk,
            ) && !any_region_contains(self.regions@, 8, chunk) by {
                let k = (chunk % 32) as u32;
                assert((0u32 >> k) & 1 == 0) by (bit_vector);
                lemma_no_region_contains(self.regions@, 8, chunk);
            }
        }
        self.set_private_peripheral_bus_access_bits();
    }

    fn set_dirty(&mut self)
        requires
            old(self).inv(),
        ensures
            final(self).inv(),
            final(self).is_dirty,
            final(self).view() == old(self).view(),
            final(self).old_regions == (if old(self).is_dirty {
                old(self).old_regions
            } else {
                old(self).regions
            }),
    {
        if !self.is_dirty {
            self.old_regions = self.regions;
            self.is_dirty = true;
        }
    }

    fn update_access_bits(&mut self)
        requires
            old(self).inv(),
        ensures
            final(self).inv(),
            !final(self).is_dirty,
            final(self).view() == old(self).view(),
    {
        let ghost old_bits = self.access_bits@;
        let ghost olds = if self.is_dirty {
            self.old_regions@
        } else {
            self.regions@
        };
        let mut i: usize = 0;
        while i < 8
            invariant
                i <= 8,
                self.access_bits@.len() == ACCESS_WORD_COUNT,
                self.view() == old(self).view(),
                self.old_regions == old(self).old_regions,
                self.is_dirty == old(self).is_dirty,
                olds == if self.is_dirty {
                    self.old_regions@
                } else {
                    self.regions@
                },
                all_valid(self.old_regions@),
                all_valid(self.regions@),
                forall|chunk: int|
                    0 <= chunk < CHUNK_COUNT ==> #[trigger] access_bit(self.access_bits@, chunk) == (
                    permitted(olds, chunk) && !any_region_contains(self.old_regions@, i as int, chunk)),
            decreases 8 - i,
        {
            let region = self.old_regions[i];
            Self::set_access_bits(&mut self.access_bits, &region, false);
            i = i + 1;
        }
        let mut j: usize = 0;
        while j < 8
            invariant
                j <= 8,
                self.access_bits@.len() == ACCESS_WORD_COUNT,
                self.view() == old(self).view(),
                self.old_regions == old(self).old_regions,
                olds == if old(self).is_dirty {
                    self.old_regions@
                } else {
                    self.regions@
                },
                all_valid(self.old_regions@),
                all_valid(self.regions@),
                forall|chunk: int|
                    0 <= chunk < CHUNK_COUNT ==> #[trigger] access_bit(self.access_bits@, chunk) == ((
                    permitted(olds, chunk) && !any_region_contains(self.old_regions@, 8, chunk))
                        || any_region_contains(self.regions@, j as int, chunk)),
            decreases 8 - j,
        {
            let region = self.regions[j];
            Self::set_access_bits(&mut self.access_bits, &region, true);
            j = j + 1;
        }
        self.old_regions = self.regions;
        self.is_dirty = false;
        self.set_private_peripheral_bus_access_bits();
    }

    /// Sets (if `value` is true) or clears the access bits of the chunks to which `region` grants
    /// access.
    fn set_access_bits(access_bits: &mut Vec<u32>, region: &MemoryRegion, value: bool)
        requires
            old(access_bits)@.len() == ACCESS_WORD_COUNT,
            region.valid(),
        ensures
            final(access_bits)@.len() == ACCESS_WORD_COUNT,
            forall|chunk: int|
                0 <= chunk < CHUNK_COUNT ==> #[trigger] access_bit(final(access_bits)@, chunk) == (
                if region.contains(chunk) {
                    value
                } else {
                    access_bit(old(access_bits)@, chunk)
                }),
    {
        if !region.enable {
            return ;
        }
        let n: u32 = region.size as u32 + 1;
        let start_chunk: u32 = if n >= 32 {
            0
        } else {
            (region.base_address >> n) << (n - LOG2_CHUNK_SIZE)
        };
        let chunk_count: u32 = 1u32 << (n - LOG2_CHUNK_SIZE);
        let chunks_per_subregion: u32 = (1u32 << (n - 3)) >> LOG2_CHUNK_SIZE;
        proof {
            lemma_region_geometry(region.base_address, n);
        }
        let end_chunk = start_chunk + chunk_count;
        let mut chunk = start_chunk;
        while chunk < end_chunk
            invariant
                region.valid(),
                region.enable,
                n == region.log2_size(),
                start_chunk == region.first_chunk(),
                chunk_count == region.chunk_count(),
                chunks_per_subregion == region.chunks_per_subregion(),
                end_chunk == start_chunk + chunk_count,
                end_chunk <= CHUNK_COUNT,
                chunks_per_subregion == 0 || chunk_count == 8 * chunks_per_subregion,
                start_chunk <= chunk <= end_chunk,
                access_bits@.len() == ACCESS_WORD_COUNT,
                forall|c: int|
                    0 <= c < CHUNK_COUNT ==> #[trigger] access_bit(access_bits@, c) == (
                    if start_chunk <= c < chunk && region.contains(c) {
                        value
                    } else {
                        access_bit(old(access_bits)@, c)
                    }),
            decreases end_chunk - chunk,
        {
            let mut allowed = true;
            if chunks_per_subregion != 0 {
                let subregion = (chunk - start_chunk) / chunks_per_subregion;
                proof {
                    lemma_subregion_bound(
                        (chunk - start_chunk) as u32,
                        chunks_per_subregion,
                        chunk_count,
                    );
                }
                if region.disabled_subregions & (1u8 << (subregion as u8)) != 0 {
                    allowed = false;
                }
            }
            assert(allowed == region.contains(chunk as int));
            if allowed {
                let index = (chunk / 32) as usize;
                let old_word = access_bits[index];
                let bit = chunk % 32;
                let new_word = if value {
                    old_word | (1u32 << bit)
                } else {
                    old_word & !(1u32 << bit)
                };
                let ghost previous = access_bits@;
                access_bits.set(index, new_word);
                proof {
                    assert forall|c: int| 0 <= c < CHUNK_COUNT implies #[trigger] access_bit(
                        access_bits@,
                        c,
                    ) == (if start_chunk <= c < chunk + 1 && region.contains(c) {
                        value
                    } else {
                        access_bit(old(access_bits)@, c)
                    }) by {
                        assert(access_bit(previous, c) == (if start_chunk <= c < chunk
                            && region.contains(c) {
                            value
                        } else {
                            access_bit(old(access_bits)@, c)
                        }));
                        if c / 32 == index as int {
                            let k = (c % 32) as u32;
                            lemma_single_bit_update(old_word, bit, k, value);
                            if c != chunk as int {
                                assert(k != bit);
                            }
                        } else {
                            assert(access_bits@[c / 32] == previous[c / 32]);
                        }
                    }
                }
            }
            chunk = chunk + 1;
        }
    }

    fn set_private_peripheral_bus_access_bits(&mut self)
        requires
            old(self).access_bits@.len() == ACCESS_WORD_COUNT,
        ensures
            final(self).access_bits@.len() == ACCESS_WORD_COUNT,
            *final(self) == (MemoryProtectionUnit {
                access_bits: final(self).access_bits,
                ..*old(self)
            }),
            forall|chunk: int|
                0 <= chunk < CHUNK_COUNT ==> #[trigger] access_bit(final(self).access_bits@, chunk) == (
                in_private_peripheral_bus(chunk) || access_bit(old(self).access_bits@, chunk)),
    {
        let mut i = PRIVATE_PERIPHERAL_BUS_START;
        while i < PRIVATE_PERIPHERAL_BUS_END
            invariant
                PRIVATE_PERIPHERAL_BUS_START <= i <= PRIVATE_PERIPHERAL_BUS_END,
                self.access_bits@.len() == ACCESS_WORD_COUNT,
                *self == (MemoryProtectionUnit { access_bits: self.access_bits, ..*old(self) }),
                forall|w: int|
                    0 <= w < ACCESS_WORD_COUNT ==> #[trigger] self.access_bits@[w] == if PRIVATE_PERIPHERAL_BUS_START
                        <= w < i {
                        0xFFFFFFFFu32
                    } else {
                        old(self).access_bits@[w]
                    },
            decreases PRIVATE_PERIPHERAL_BUS_END - i,
        {
            self.access_bits.set(i, 0xFFFFFFFF);
            i = i + 1;
        }
        proof {
            assert forall|chunk: int| 0 <= chunk < CHUNK_COUNT implies #[trigger] access_bit(
                self.access_bits@,
                chunk,
            ) == (in_private_peripheral_bus(chunk) || access_bit(old(self).access_bits@, chunk)) by {
                let k = (chunk % 32) as u32;
                assert((0xFFFFFFFFu32 >> k) & 1 == 1) by (bit_vector)
                    requires
                        k < 32,
                ;
            }
        }
    }
}

/// The effect of setting or clearing the bit `bit` of `word` on its bit `k`.
proof fn lemma_single_bit_update(word: u32, bit: u32, k: u32, value: bool)
    requires
        bit < 32,
        k < 32,
    ensures
        (((if value {
            word | (1u32 << bit)
        } else {
            word & !(1u32 << bit)
        }) >> k) & 1 == 1) == if k == bit {
            value
        } else {
            (word >> k) & 1 == 1
        },
{
    if value {
        assert((((word | (1u32 << bit)) >> k) & 1 == 1) == if k == bit {
            true
        } else {
            (word >> k) & 1 == 1
        }) by (bit_vector)
            requires
                bit < 32,
                k < 32,
        ;
    } else {
        assert((((word & !(1u32 << bit)) >> k) & 1 == 1) == if k == bit {
            false
        } else {
            (word >> k) & 1 == 1
        }) by (bit_vector)
            requires
                bit < 32,
                k < 32,
        ;
    }
}

/// The chunks of a valid region of size 2^n (5 <= n <= 32) fit in the address space, and there are
/// 8 sub-regions of whole chunks when the region is at least 256 bytes large.
proof fn lemma_region_geometry(base: u32, n: u32)
    requires
        5 <= n <= 32,
    ensures
        ({
            let start = if n >= 32 {
                0
            } else {
                (base >> n) << ((n - 5) as u32)
            };
            let count = 1u32 << ((n - 5) as u32);
            let per_subregion = (1u32 << ((n - 3) as u32)) >> 5u32;
            &&& start + count <= CHUNK_COUNT
            &&& count >= 1
            &&& (per_subregion == 0 || count == 8 * per_subregion)
            &&& (n < 8 ==> per_subregion == 0)
        }),
{
    if n >= 32 {
        assert(1u32 << ((32 - 5) as u32) == 0x8000000u32) by (bit_vector);
        assert((1u32 << ((32 - 3) as u32)) >> 5u32 == 0x1000000u32) by (bit_vector);
    } else {
        assert(((base >> n) << ((n - 5) as u32)) + (1u32 << ((n - 5) as u32)) <= 0x8000000u64)
            by (bit_vector)
            requires
                5 <= n < 32,
        ;
        assert((1u32 << ((n - 5) as u32)) >= 1) by (bit_vector)
            requires
                5 <= n < 32,
        ;
        assert({
            let per = (1u32 << ((n - 3) as u32)) >> 5u32;
            &&& (per == 0 || (1u32 << ((n - 5) as u32)) == 8 * per)
            &&& (n < 8 ==> per == 0)
        }) by (bit_vector)
            requires
                5 <= n < 32,
        ;
    }
}

/// A chunk of a region belongs to one of its 8 sub-regions.
proof fn lemma_subregion_bound(offset: u32, per_subregion: u32, count: u32)
    requires
        per_subregion != 0,
        count == 8 * per_subregion,
        offset < count,
    ensures
        offset / per_subregion < 8,
{
    if offset / per_subregion >= 8 {
        assert(offset >= 8 * per_subregion) by (nonlinear_arith)
            requires
                offset / per_subregion >= 8,
                per_subregion > 0,
        ;
    }
}

/// No zero region grants access to any chunk.
proof fn lemma_no_region_contains(regions: Seq<MemoryRegion>, count: int, chunk: int)
    requires
        forall|i: int| 0 <= i < count ==> !#[trigger] regions[i].enable,
    ensures
        !any_region_contains(regions, count, chunk),
    decreases count,
{
    if count > 0 {
        lemma_no_region_contains(regions, count - 1, chunk);
    }
}

} // verus!
