//! Every ABI enumeration: the code of each variant, the decoding of each
//! code, the round trip between them, and rejection of codes outside the
//! documented range.

use libdragon_bindings::MemoryPak::DeleteEntryResult;
use libdragon_bindings::MemoryPak::FormatResult;
use libdragon_bindings::MemoryPak::GetEntryResult;
use libdragon_bindings::MemoryPak::ReadEntryDataResult;
use libdragon_bindings::MemoryPak::ReadSectorResult;
use libdragon_bindings::MemoryPak::ValidateResult;
use libdragon_bindings::MemoryPak::WriteEntryDataResult;
use libdragon_bindings::MemoryPak::WriteSectorResult;
use libdragon_bindings::Console::RenderMode;
use libdragon_bindings::TransferPak::TPakError;
use libdragon_bindings::TransferPak::TPakStatus;
use libdragon_bindings::TransferPak::GBCSupportType;
use libdragon_bindings::Display::Resolution;
use libdragon_bindings::Display::BitDepth;
use libdragon_bindings::Display::Gamma;
use libdragon_bindings::Display::AntiAlias;
use libdragon_bindings::Interrupt::InterruptState;
use libdragon_bindings::RDP::Sync;
use libdragon_bindings::RDP::Mirror;
use libdragon_bindings::RDP::Flush;
use libdragon_bindings::Exceptions::ExceptionType;
use libdragon_bindings::Exceptions::ExceptionCode;
use libdragon_bindings::Controller::AccessoryType;
use libdragon_bindings::Controller::EEPROMType;
use libdragon_bindings::Controller::SIError;
use libdragon_bindings::Controller::DPadDirection;
use libdragon_bindings::Controller::MemPakResult;
use libdragon_bindings::Controller::ControllerNum;
use libdragon_bindings::DragonFS::DFSResult;
use libdragon_bindings::N64System::TVType;

#[test]
fn delete_entry_result_codes_roundtrip() {
    assert_eq!(DeleteEntryResult::DeletedSuccessfully.code(), 0);
    assert_eq!(DeleteEntryResult::from_code(0), Some(DeleteEntryResult::DeletedSuccessfully));
    assert_eq!(DeleteEntryResult::InvalidEntry.code(), -1);
    assert_eq!(DeleteEntryResult::from_code(-1), Some(DeleteEntryResult::InvalidEntry));
    assert_eq!(DeleteEntryResult::BadMemPak.code(), -2);
    assert_eq!(DeleteEntryResult::from_code(-2), Some(DeleteEntryResult::BadMemPak));
    assert_eq!(DeleteEntryResult::from_code(99), None);
    assert_eq!(DeleteEntryResult::from_code(-99), None);
}

#[test]
fn format_result_codes_roundtrip() {
    assert_eq!(FormatResult::FormattedSuccessfully.code(), 0);
    assert_eq!(FormatResult::from_code(0), Some(FormatResult::FormattedSuccessfully));
    assert_eq!(FormatResult::BadMemPak.code(), -2);
    assert_eq!(FormatResult::from_code(-2), Some(FormatResult::BadMemPak));
    assert_eq!(FormatResult::from_code(99), None);
    assert_eq!(FormatResult::from_code(-99), None);
}

#[test]
fn get_entry_result_codes_roundtrip() {
    assert_eq!(GetEntryResult::ReadSuccessfully.code(), 0);
    assert_eq!(GetEntryResult::from_code(0), Some(GetEntryResult::ReadSuccessfully));
    assert_eq!(GetEntryResult::BadEntry.code(), -1);
    assert_eq!(GetEntryResult::from_code(-1), Some(GetEntryResult::BadEntry));
    assert_eq!(GetEntryResult::BadMemPak.code(), -2);
    assert_eq!(GetEntryResult::from_code(-2), Some(GetEntryResult::BadMemPak));
    assert_eq!(GetEntryResult::from_code(99), None);
    assert_eq!(GetEntryResult::from_code(-99), None);
}

#[test]
fn read_entry_data_result_codes_roundtrip() {
    assert_eq!(ReadEntryDataResult::ReadSuccessfully.code(), 0);
    assert_eq!(ReadEntryDataResult::from_code(0), Some(ReadEntryDataResult::ReadSuccessfully));
    assert_eq!(ReadEntryDataResult::BadEntry.code(), -1);
    assert_eq!(ReadEntryDataResult::from_code(-1), Some(ReadEntryDataResult::BadEntry));
    assert_eq!(ReadEntryDataResult::BadMemPak.code(), -2);
    assert_eq!(ReadEntryDataResult::from_code(-2), Some(ReadEntryDataResult::BadMemPak));
    assert_eq!(ReadEntryDataResult::DataUnreadable.code(), -3);
    assert_eq!(ReadEntryDataResult::from_code(-3), Some(ReadEntryDataResult::DataUnreadable));
    assert_eq!(ReadEntryDataResult::from_code(99), None);
    assert_eq!(ReadEntryDataResult::from_code(-99), None);
}

#[test]
fn read_sector_result_codes_roundtrip() {
    assert_eq!(ReadSectorResult::ReadSuccessfully.code(), 0);
    assert_eq!(ReadSectorResult::from_code(0), Some(ReadSectorResult::ReadSuccessfully));
    assert_eq!(ReadSectorResult::BadSector.code(), -1);
    assert_eq!(ReadSectorResult::from_code(-1), Some(ReadSectorResult::BadSector));
    assert_eq!(ReadSectorResult::ErrorRead.code(), -2);
    assert_eq!(ReadSectorResult::from_code(-2), Some(ReadSectorResult::ErrorRead));
    assert_eq!(ReadSectorResult::from_code(99), None);
    assert_eq!(ReadSectorResult::from_code(-99), None);
}

#[test]
fn validate_result_codes_roundtrip() {
    assert_eq!(ValidateResult::Valid.code(), 0);
    assert_eq!(ValidateResult::from_code(0), Some(ValidateResult::Valid));
    assert_eq!(ValidateResult::NotPresent.code(), -2);
    assert_eq!(ValidateResult::from_code(-2), Some(ValidateResult::NotPresent));
    assert_eq!(ValidateResult::BadMemPak.code(), -3);
    assert_eq!(ValidateResult::from_code(-3), Some(ValidateResult::BadMemPak));
    assert_eq!(ValidateResult::from_code(99), None);
    assert_eq!(ValidateResult::from_code(-99), None);
}

#[test]
fn write_entry_data_result_codes_roundtrip() {
    assert_eq!(WriteEntryDataResult::WrittenSuccessfully.code(), 0);
    assert_eq!(WriteEntryDataResult::from_code(0), Some(WriteEntryDataResult::WrittenSuccessfully));
    assert_eq!(WriteEntryDataResult::InvalidParameter.code(), -1);
    assert_eq!(WriteEntryDataResult::from_code(-1), Some(WriteEntryDataResult::InvalidParameter));
    assert_eq!(WriteEntryDataResult::BadMemPak.code(), -2);
    assert_eq!(WriteEntryDataResult::from_code(-2), Some(WriteEntryDataResult::BadMemPak));
    assert_eq!(WriteEntryDataResult::WriteError.code(), -3);
    assert_eq!(WriteEntryDataResult::from_code(-3), Some(WriteEntryDataResult::WriteError));
    assert_eq!(WriteEntryDataResult::NotEnoughSpace.code(), -4);
    assert_eq!(WriteEntryDataResult::from_code(-4), Some(WriteEntryDataResult::NotEnoughSpace));
    assert_eq!(WriteEntryDataResult::TOCFull.code(), -5);
    assert_eq!(WriteEntryDataResult::from_code(-5), Some(WriteEntryDataResult::TOCFull));
    assert_eq!(WriteEntryDataResult::from_code(99), None);
    assert_eq!(WriteEntryDataResult::from_code(-99), None);
}

#[test]
fn write_sector_result_codes_roundtrip() {
    assert_eq!(WriteSectorResult::WrittenSuccessfully.code(), 0);
    assert_eq!(WriteSectorResult::from_code(0), Some(WriteSectorResult::WrittenSuccessfully));
    assert_eq!(WriteSectorResult::BadSector.code(), -1);
    assert_eq!(WriteSectorResult::from_code(-1), Some(WriteSectorResult::BadSector));
    assert_eq!(WriteSectorResult::WriteError.code(), -2);
    assert_eq!(WriteSectorResult::from_code(-2), Some(WriteSectorResult::WriteError));
    assert_eq!(WriteSectorResult::from_code(99), None);
    assert_eq!(WriteSectorResult::from_code(-99), None);
}

#[test]
fn render_mode_codes_roundtrip() {
    assert_eq!(RenderMode::RenderManual.code(), 0);
    assert_eq!(RenderMode::from_code(0), Some(RenderMode::RenderManual));
    assert_eq!(RenderMode::RenderAutomatic.code(), 1);
    assert_eq!(RenderMode::from_code(1), Some(RenderMode::RenderAutomatic));
    assert_eq!(RenderMode::from_code(99), None);
    assert_eq!(RenderMode::from_code(-99), None);
}

#[test]
fn t_pak_error_codes_roundtrip() {
    assert_eq!(TPakError::Success.code(), 0);
    assert_eq!(TPakError::from_code(0), Some(TPakError::Success));
    assert_eq!(TPakError::InvalidArgument.code(), -1);
    assert_eq!(TPakError::from_code(-1), Some(TPakError::InvalidArgument));
    assert_eq!(TPakError::NoTPak.code(), -2);
    assert_eq!(TPakError::from_code(-2), Some(TPakError::NoTPak));
    assert_eq!(TPakError::NoController.code(), -3);
    assert_eq!(TPakError::from_code(-3), Some(TPakError::NoController));
    assert_eq!(TPakError::UnknownBehaviour.code(), -4);
    assert_eq!(TPakError::from_code(-4), Some(TPakError::UnknownBehaviour));
    assert_eq!(TPakError::NoCartridge.code(), -5);
    assert_eq!(TPakError::from_code(-5), Some(TPakError::NoCartridge));
    assert_eq!(TPakError::AddressOverflow.code(), -6);
    assert_eq!(TPakError::from_code(-6), Some(TPakError::AddressOverflow));
    assert_eq!(TPakError::from_code(99), None);
    assert_eq!(TPakError::from_code(-99), None);
}

#[test]
fn t_pak_status_codes_roundtrip() {
    assert_eq!(TPakStatus::Ready.code(), 0x01);
    assert_eq!(TPakStatus::from_code(0x01), Some(TPakStatus::Ready));
    assert_eq!(TPakStatus::WasReset.code(), 0x04);
    assert_eq!(TPakStatus::from_code(0x04), Some(TPakStatus::WasReset));
    assert_eq!(TPakStatus::IsResetting.code(), 0x08);
    assert_eq!(TPakStatus::from_code(0x08), Some(TPakStatus::IsResetting));
    assert_eq!(TPakStatus::Removed.code(), 0x40);
    assert_eq!(TPakStatus::from_code(0x40), Some(TPakStatus::Removed));
    assert_eq!(TPakStatus::Powered.code(), 0x80);
    assert_eq!(TPakStatus::from_code(0x80), Some(TPakStatus::Powered));
    assert_eq!(TPakStatus::from_code(99), None);
    assert_eq!(TPakStatus::from_code(0), None);
}

#[test]
fn g_b_c_support_type_codes_roundtrip() {
    assert_eq!(GBCSupportType::GBC_NOT_SUPPORTED.code(), 0x00);
    assert_eq!(GBCSupportType::from_code(0x00), Some(GBCSupportType::GBC_NOT_SUPPORTED));
    assert_eq!(GBCSupportType::GBC_DMG_SUPPORTED.code(), 0x80);
    assert_eq!(GBCSupportType::from_code(0x80), Some(GBCSupportType::GBC_DMG_SUPPORTED));
    assert_eq!(GBCSupportType::GBC_ONLY_SUPPORTED.code(), 0xC0);
    assert_eq!(GBCSupportType::from_code(0xC0), Some(GBCSupportType::GBC_ONLY_SUPPORTED));
    assert_eq!(GBCSupportType::from_code(99), None);
    assert_eq!(GBCSupportType::from_code(193), None);
}

#[test]
fn resolution_codes_roundtrip() {
    assert_eq!(Resolution::RESOLUTION_320x240.code(), 0);
    assert_eq!(Resolution::from_code(0), Some(Resolution::RESOLUTION_320x240));
    assert_eq!(Resolution::RESOLUTION_640x480.code(), 1);
    assert_eq!(Resolution::from_code(1), Some(Resolution::RESOLUTION_640x480));
    assert_eq!(Resolution::RESOLUTION_256x240.code(), 2);
    assert_eq!(Resolution::from_code(2), Some(Resolution::RESOLUTION_256x240));
    assert_eq!(Resolution::RESOLUTION_512x480.code(), 3);
    assert_eq!(Resolution::from_code(3), Some(Resolution::RESOLUTION_512x480));
    assert_eq!(Resolution::RESOLUTION_512x240.code(), 4);
    assert_eq!(Resolution::from_code(4), Some(Resolution::RESOLUTION_512x240));
    assert_eq!(Resolution::RESOLUTION_640x240.code(), 5);
    assert_eq!(Resolution::from_code(5), Some(Resolution::RESOLUTION_640x240));
    assert_eq!(Resolution::from_code(99), None);
    assert_eq!(Resolution::from_code(-99), None);
}

#[test]
fn bit_depth_codes_roundtrip() {
    assert_eq!(BitDepth::DEPTH_16_BPP.code(), 0);
    assert_eq!(BitDepth::from_code(0), Some(BitDepth::DEPTH_16_BPP));
    assert_eq!(BitDepth::DEPTH_32_BPP.code(), 1);
    assert_eq!(BitDepth::from_code(1), Some(BitDepth::DEPTH_32_BPP));
    assert_eq!(BitDepth::from_code(99), None);
    assert_eq!(BitDepth::from_code(-99), None);
}

#[test]
fn gamma_codes_roundtrip() {
    assert_eq!(Gamma::GAMMA_NONE.code(), 0);
    assert_eq!(Gamma::from_code(0), Some(Gamma::GAMMA_NONE));
    assert_eq!(Gamma::GAMMA_CORRECT.code(), 1);
    assert_eq!(Gamma::from_code(1), Some(Gamma::GAMMA_CORRECT));
    assert_eq!(Gamma::GAMMA_CORRECT_DITHER.code(), 2);
    assert_eq!(Gamma::from_code(2), Some(Gamma::GAMMA_CORRECT_DITHER));
    assert_eq!(Gamma::from_code(99), None);
    assert_eq!(Gamma::from_code(-99), None);
}

#[test]
fn anti_alias_codes_roundtrip() {
    assert_eq!(AntiAlias::ANTIALIAS_OFF.code(), 0);
    assert_eq!(AntiAlias::from_code(0), Some(AntiAlias::ANTIALIAS_OFF));
    assert_eq!(AntiAlias::ANTIALIAS_RESAMPLE.code(), 1);
    assert_eq!(AntiAlias::from_code(1), Some(AntiAlias::ANTIALIAS_RESAMPLE));
    assert_eq!(AntiAlias::ANTIALIAS_RESAMPLE_FETCH_NEEDED.code(), 2);
    assert_eq!(AntiAlias::from_code(2), Some(AntiAlias::ANTIALIAS_RESAMPLE_FETCH_NEEDED));
    assert_eq!(AntiAlias::ANTIALIAS_RESAMPLE_FETCH_ALWAYS.code(), 3);
    assert_eq!(AntiAlias::from_code(3), Some(AntiAlias::ANTIALIAS_RESAMPLE_FETCH_ALWAYS));
    assert_eq!(AntiAlias::from_code(99), None);
    assert_eq!(AntiAlias::from_code(-99), None);
}

#[test]
fn interrupt_state_codes_roundtrip() {
    assert_eq!(InterruptState::INTERRUPTS_UNINITIALIZED.code(), 0);
    assert_eq!(InterruptState::from_code(0), Some(InterruptState::INTERRUPTS_UNINITIALIZED));
    assert_eq!(InterruptState::INTERRUPTS_DISABLED.code(), 1);
    assert_eq!(InterruptState::from_code(1), Some(InterruptState::INTERRUPTS_DISABLED));
    assert_eq!(InterruptState::INTERRUPTS_ENABLED.code(), 2);
    assert_eq!(InterruptState::from_code(2), Some(InterruptState::INTERRUPTS_ENABLED));
    assert_eq!(InterruptState::from_code(99), None);
    assert_eq!(InterruptState::from_code(-99), None);
}

#[test]
fn sync_codes_roundtrip() {
    assert_eq!(Sync::SYNC_FULL.code(), 0);
    assert_eq!(Sync::from_code(0), Some(Sync::SYNC_FULL));
    assert_eq!(Sync::SYNC_PIPE.code(), 1);
    assert_eq!(Sync::from_code(1), Some(Sync::SYNC_PIPE));
    assert_eq!(Sync::SYNC_LOAD.code(), 2);
    assert_eq!(Sync::from_code(2), Some(Sync::SYNC_LOAD));
    assert_eq!(Sync::SYNC_TILE.code(), 3);
    assert_eq!(Sync::from_code(3), Some(Sync::SYNC_TILE));
    assert_eq!(Sync::from_code(99), None);
    assert_eq!(Sync::from_code(-99), None);
}

#[test]
fn mirror_codes_roundtrip() {
    assert_eq!(Mirror::MIRROR_DISABLED.code(), 0);
    assert_eq!(Mirror::from_code(0), Some(Mirror::MIRROR_DISABLED));
    assert_eq!(Mirror::MIRROR_X.code(), 1);
    assert_eq!(Mirror::from_code(1), Some(Mirror::MIRROR_X));
    assert_eq!(Mirror::MIRROR_Y.code(), 2);
    assert_eq!(Mirror::from_code(2), Some(Mirror::MIRROR_Y));
    assert_eq!(Mirror::MIRROR_XY.code(), 3);
    assert_eq!(Mirror::from_code(3), Some(Mirror::MIRROR_XY));
    assert_eq!(Mirror::from_code(99), None);
    assert_eq!(Mirror::from_code(-99), None);
}

#[test]
fn flush_codes_roundtrip() {
    assert_eq!(Flush::FLUSH_STRATEGY_NONE.code(), 0);
    assert_eq!(Flush::from_code(0), Some(Flush::FLUSH_STRATEGY_NONE));
    assert_eq!(Flush::FLUSH_STRATEGY_AUTOMATIC.code(), 1);
    assert_eq!(Flush::from_code(1), Some(Flush::FLUSH_STRATEGY_AUTOMATIC));
    assert_eq!(Flush::from_code(99), None);
    assert_eq!(Flush::from_code(-99), None);
}

#[test]
fn exception_type_codes_roundtrip() {
    assert_eq!(ExceptionType::EXCEPTION_TYPE_UNKNOWN.code(), 0);
    assert_eq!(ExceptionType::from_code(0), Some(ExceptionType::EXCEPTION_TYPE_UNKNOWN));
    assert_eq!(ExceptionType::EXCEPTION_TYPE_RESET.code(), 1);
    assert_eq!(ExceptionType::from_code(1), Some(ExceptionType::EXCEPTION_TYPE_RESET));
    assert_eq!(ExceptionType::EXCEPTION_TYPE_CRITICAL.code(), 2);
    assert_eq!(ExceptionType::from_code(2), Some(ExceptionType::EXCEPTION_TYPE_CRITICAL));
    assert_eq!(ExceptionType::from_code(99), None);
    assert_eq!(ExceptionType::from_code(-99), None);
}

#[test]
fn exception_code_codes_roundtrip() {
    assert_eq!(ExceptionCode::EXCEPTION_CODE_INTERRUPT.code(), 0);
    assert_eq!(ExceptionCode::from_code(0), Some(ExceptionCode::EXCEPTION_CODE_INTERRUPT));
    assert_eq!(ExceptionCode::EXCEPTION_CODE_TLB_MODIFICATION.code(), 1);
    assert_eq!(ExceptionCode::from_code(1), Some(ExceptionCode::EXCEPTION_CODE_TLB_MODIFICATION));
    assert_eq!(ExceptionCode::EXCEPTION_CODE_TLB_LOAD_I_MISS.code(), 2);
    assert_eq!(ExceptionCode::from_code(2), Some(ExceptionCode::EXCEPTION_CODE_TLB_LOAD_I_MISS));
    assert_eq!(ExceptionCode::EXCEPTION_CODE_TLB_STORE_MISS.code(), 3);
    assert_eq!(ExceptionCode::from_code(3), Some(ExceptionCode::EXCEPTION_CODE_TLB_STORE_MISS));
    assert_eq!(ExceptionCode::EXCEPTION_CODE_LOAD_I_ADDRESS_ERROR.code(), 4);
    assert_eq!(ExceptionCode::from_code(4), Some(ExceptionCode::EXCEPTION_CODE_LOAD_I_ADDRESS_ERROR));
    assert_eq!(ExceptionCode::EXCEPTION_CODE_STORE_ADDRESS_ERROR.code(), 5);
    assert_eq!(ExceptionCode::from_code(5), Some(ExceptionCode::EXCEPTION_CODE_STORE_ADDRESS_ERROR));
    assert_eq!(ExceptionCode::EXCEPTION_CODE_I_BUS_ERROR.code(), 6);
    assert_eq!(ExceptionCode::from_code(6), Some(ExceptionCode::EXCEPTION_CODE_I_BUS_ERROR));
    assert_eq!(ExceptionCode::EXCEPTION_CODE_D_BUS_ERROR.code(), 7);
    assert_eq!(ExceptionCode::from_code(7), Some(ExceptionCode::EXCEPTION_CODE_D_BUS_ERROR));
    assert_eq!(ExceptionCode::EXCEPTION_CODE_SYS_CALL.code(), 8);
    assert_eq!(ExceptionCode::from_code(8), Some(ExceptionCode::EXCEPTION_CODE_SYS_CALL));
    assert_eq!(ExceptionCode::EXCEPTION_CODE_BREAKPOINT.code(), 9);
    assert_eq!(ExceptionCode::from_code(9), Some(ExceptionCode::EXCEPTION_CODE_BREAKPOINT));
    assert_eq!(ExceptionCode::EXCEPTION_CODE_RESERVED_INSTRUCTION.code(), 10);
    assert_eq!(ExceptionCode::from_code(10), Some(ExceptionCode::EXCEPTION_CODE_RESERVED_INSTRUCTION));
    assert_eq!(ExceptionCode::EXCEPTION_CODE_COPROCESSOR_UNUSABLE.code(), 11);
    assert_eq!(ExceptionCode::from_code(11), Some(ExceptionCode::EXCEPTION_CODE_COPROCESSOR_UNUSABLE));
    assert_eq!(ExceptionCode::EXCEPTION_CODE_ARITHMETIC_OVERFLOW.code(), 12);
    assert_eq!(ExceptionCode::from_code(12), Some(ExceptionCode::EXCEPTION_CODE_ARITHMETIC_OVERFLOW));
    assert_eq!(ExceptionCode::EXCEPTION_CODE_TRAP.code(), 13);
    assert_eq!(ExceptionCode::from_code(13), Some(ExceptionCode::EXCEPTION_CODE_TRAP));
    assert_eq!(ExceptionCode::EXCEPTION_CODE_FLOATING_POINT.code(), 15);
    assert_eq!(ExceptionCode::from_code(15), Some(ExceptionCode::EXCEPTION_CODE_FLOATING_POINT));
    assert_eq!(ExceptionCode::EXCEPTION_CODE_WATCH.code(), 23);
    assert_eq!(ExceptionCode::from_code(23), Some(ExceptionCode::EXCEPTION_CODE_WATCH));
    assert_eq!(ExceptionCode::from_code(99), None);
    assert_eq!(ExceptionCode::from_code(-99), None);
}

#[test]
fn accessory_type_codes_roundtrip() {
    assert_eq!(AccessoryType::NoAccessory.code(), 0);
    assert_eq!(AccessoryType::from_code(0), Some(AccessoryType::NoAccessory));
    assert_eq!(AccessoryType::MemPak.code(), 1);
    assert_eq!(AccessoryType::from_code(1), Some(AccessoryType::MemPak));
    assert_eq!(AccessoryType::RumblePak.code(), 2);
    assert_eq!(AccessoryType::from_code(2), Some(AccessoryType::RumblePak));
    assert_eq!(AccessoryType::VRU.code(), 3);
    assert_eq!(AccessoryType::from_code(3), Some(AccessoryType::VRU));
    assert_eq!(AccessoryType::from_code(99), None);
    assert_eq!(AccessoryType::from_code(-99), None);
}

#[test]
fn e_e_p_r_o_m_type_codes_roundtrip() {
    assert_eq!(EEPROMType::NoEEPROM.code(), 0);
    assert_eq!(EEPROMType::from_code(0), Some(EEPROMType::NoEEPROM));
    assert_eq!(EEPROMType::_4K.code(), 1);
    assert_eq!(EEPROMType::from_code(1), Some(EEPROMType::_4K));
    assert_eq!(EEPROMType::_16K.code(), 2);
    assert_eq!(EEPROMType::from_code(2), Some(EEPROMType::_16K));
    assert_eq!(EEPROMType::from_code(99), None);
    assert_eq!(EEPROMType::from_code(-99), None);
}

#[test]
fn s_i_error_codes_roundtrip() {
    assert_eq!(SIError::NoError.code(), 0x0);
    assert_eq!(SIError::from_code(0x0), Some(SIError::NoError));
    assert_eq!(SIError::BadCommand.code(), 0x1);
    assert_eq!(SIError::from_code(0x1), Some(SIError::BadCommand));
    assert_eq!(SIError::NotPresent.code(), 0x2);
    assert_eq!(SIError::from_code(0x2), Some(SIError::NotPresent));
    assert_eq!(SIError::from_code(99), None);
    assert_eq!(SIError::from_code(-99), None);
}

#[test]
fn d_pad_direction_codes_roundtrip() {
    assert_eq!(DPadDirection::R.code(), 0);
    assert_eq!(DPadDirection::from_code(0), Some(DPadDirection::R));
    assert_eq!(DPadDirection::UR.code(), 1);
    assert_eq!(DPadDirection::from_code(1), Some(DPadDirection::UR));
    assert_eq!(DPadDirection::U.code(), 2);
    assert_eq!(DPadDirection::from_code(2), Some(DPadDirection::U));
    assert_eq!(DPadDirection::UL.code(), 3);
    assert_eq!(DPadDirection::from_code(3), Some(DPadDirection::UL));
    assert_eq!(DPadDirection::L.code(), 4);
    assert_eq!(DPadDirection::from_code(4), Some(DPadDirection::L));
    assert_eq!(DPadDirection::DL.code(), 5);
    assert_eq!(DPadDirection::from_code(5), Some(DPadDirection::DL));
    assert_eq!(DPadDirection::D.code(), 6);
    assert_eq!(DPadDirection::from_code(6), Some(DPadDirection::D));
    assert_eq!(DPadDirection::DR.code(), 7);
    assert_eq!(DPadDirection::from_code(7), Some(DPadDirection::DR));
    assert_eq!(DPadDirection::from_code(99), None);
    assert_eq!(DPadDirection::from_code(-99), None);
}

#[test]
fn mem_pak_result_codes_roundtrip() {
    assert_eq!(MemPakResult::Success.code(), 0);
    assert_eq!(MemPakResult::from_code(0), Some(MemPakResult::Success));
    assert_eq!(MemPakResult::OutOfRange.code(), -1);
    assert_eq!(MemPakResult::from_code(-1), Some(MemPakResult::OutOfRange));
    assert_eq!(MemPakResult::NoMemPak.code(), -2);
    assert_eq!(MemPakResult::from_code(-2), Some(MemPakResult::NoMemPak));
    assert_eq!(MemPakResult::InvalidMemPakData.code(), -3);
    assert_eq!(MemPakResult::from_code(-3), Some(MemPakResult::InvalidMemPakData));
    assert_eq!(MemPakResult::from_code(99), None);
    assert_eq!(MemPakResult::from_code(-99), None);
}

#[test]
fn controller_num_codes_roundtrip() {
    assert_eq!(ControllerNum::Controller1.code(), 0);
    assert_eq!(ControllerNum::from_code(0), Some(ControllerNum::Controller1));
    assert_eq!(ControllerNum::Controller2.code(), 1);
    assert_eq!(ControllerNum::from_code(1), Some(ControllerNum::Controller2));
    assert_eq!(ControllerNum::Controller3.code(), 2);
    assert_eq!(ControllerNum::from_code(2), Some(ControllerNum::Controller3));
    assert_eq!(ControllerNum::Controller4.code(), 3);
    assert_eq!(ControllerNum::from_code(3), Some(ControllerNum::Controller4));
    assert_eq!(ControllerNum::from_code(99), None);
    assert_eq!(ControllerNum::from_code(-99), None);
}

#[test]
fn d_f_s_result_codes_roundtrip() {
    assert_eq!(DFSResult::Success.code(), 0);
    assert_eq!(DFSResult::from_code(0), Some(DFSResult::Success));
    assert_eq!(DFSResult::BadInput.code(), -1);
    assert_eq!(DFSResult::from_code(-1), Some(DFSResult::BadInput));
    assert_eq!(DFSResult::NoFile.code(), -2);
    assert_eq!(DFSResult::from_code(-2), Some(DFSResult::NoFile));
    assert_eq!(DFSResult::BadFS.code(), -3);
    assert_eq!(DFSResult::from_code(-3), Some(DFSResult::BadFS));
    assert_eq!(DFSResult::NoMem.code(), -4);
    assert_eq!(DFSResult::from_code(-4), Some(DFSResult::NoMem));
    assert_eq!(DFSResult::BadHandle.code(), -5);
    assert_eq!(DFSResult::from_code(-5), Some(DFSResult::BadHandle));
    assert_eq!(DFSResult::from_code(99), None);
    assert_eq!(DFSResult::from_code(-99), None);
}

#[test]
fn t_v_type_codes_roundtrip() {
    assert_eq!(TVType::TV_PAL.code(), 0);
    assert_eq!(TVType::from_code(0), Some(TVType::TV_PAL));
    assert_eq!(TVType::TV_NTSC.code(), 1);
    assert_eq!(TVType::from_code(1), Some(TVType::TV_NTSC));
    assert_eq!(TVType::TV_MPAL.code(), 2);
    assert_eq!(TVType::from_code(2), Some(TVType::TV_MPAL));
    assert_eq!(TVType::from_code(99), None);
    assert_eq!(TVType::from_code(-99), None);
}
