//! The constant tables of the token interface, each an enum with its numeric
//! code in both directions.
use vstd::prelude::*;

verus! {

/// Status codes that the token functions return.
#[derive(Clone, Copy, Debug, PartialEq, Eq, Structural)]
pub enum ReturnValue {
    Success,
    Cancel,
    HostMemory,
    SlotIdInvalid,
    GeneralError,
    FunctionFailed,
    ArgumentsBad,
    NoEvent,
    NeedToCreateThreads,
    CantLock,
    AttributeReadOnly,
    AttributeSensitive,
    AttributeTypeInvalid,
    AttributeValueInvalid,
    ActionProhibited,
    DataInvalid,
    DataLenRange,
    DeviceError,
    DeviceMemory,
    DeviceRemoved,
    EncryptedDataInvalid,
    EncryptedDataLenRange,
    FunctionCanceled,
    FunctionNotParallel,
    FunctionNotSupported,
    KeyHandleInvalid,
    KeySizeRange,
    KeyTypeInconsistent,
    KeyNotNeeded,
    KeyChanged,
    KeyNeeded,
    KeyIndigestible,
    KeyFunctionNotPermitted,
    KeyNotWrappable,
    KeyUnextractable,
    MechanismInvalid,
    MechanismParamInvalid,
    ObjectHandleInvalid,
    OperationActive,
    OperationNotInitialized,
    PinIncorrect,
    PinInvalid,
    PinLenRange,
    PinExpired,
    PinLocked,
    SessionClosed,
    SessionCount,
    SessionHandleInvalid,
    SessionParallelNotSupported,
    SessionReadOnly,
    SessionExists,
    SessionReadOnlyExists,
    SessionReadWriteSoExists,
    SignatureInvalid,
    SignatureLenRange,
    TemplateIncomplete,
    TemplateInconsistent,
    TokenNotPresent,
    TokenNotRecognized,
    TokenWriteProtected,
    UnwrappingKeyHandleInvalid,
    UnwrappingKeySizeRange,
    UnwrappingKeyTypeInconsistent,
    UserAlreadyLoggedIn,
    UserNotLoggedIn,
    UserPinNotInitialized,
    UserTypeInvalid,
    UserAnotherAlreadyLoggedIn,
    UserTooManyTypes,
    WrappedKeyInvalid,
    WrappedKeyLenRange,
    WrappingKeyHandleInvalid,
    WrappingKeySizeRange,
    WrappingKeyTypeInconsistent,
    RandomSeedNotSupported,
    RandomNoRng,
    DomainParamsInvalid,
    CurveNotSupported,
    BufferTooSmall,
    SavedStateInvalid,
    InformationSensitive,
    StateUnsaveable,
    CryptokiNotInitialized,
    CryptokiAlreadyInitialized,
    MutexBad,
    MutexNotLocked,
    NewPinMode,
    NextOtp,
    ExceededMaxIterations,
    FipsSelfTestFailed,
    LibraryLoadFailed,
    PinTooWeak,
    PublicKeyInvalid,
    FunctionRejected,
    VendorDefined,
}

impl ReturnValue {
    /// The numeric code of this value.
    pub open spec fn spec_code(self) -> u64 {
        match self {
            ReturnValue::Success => 0x0000,
            ReturnValue::Cancel => 0x0001,
            ReturnValue::HostMemory => 0x0002,
            ReturnValue::SlotIdInvalid => 0x0003,
            ReturnValue::GeneralError => 0x0005,
            ReturnValue::FunctionFailed => 0x0006,
            ReturnValue::ArgumentsBad => 0x0007,
            ReturnValue::NoEvent => 0x0008,
            ReturnValue::NeedToCreateThreads => 0x0009,
            ReturnValue::CantLock => 0x000a,
            ReturnValue::AttributeReadOnly => 0x0010,
            ReturnValue::AttributeSensitive => 0x0011,
            ReturnValue::AttributeTypeInvalid => 0x0012,
            ReturnValue::AttributeValueInvalid => 0x0013,
            ReturnValue::ActionProhibited => 0x001b,
            ReturnValue::DataInvalid => 0x0020,
            ReturnValue::DataLenRange => 0x0021,
            ReturnValue::DeviceError => 0x0030,
            ReturnValue::DeviceMemory => 0x0031,
            ReturnValue::DeviceRemoved => 0x0032,
            ReturnValue::EncryptedDataInvalid => 0x0040,
            ReturnValue::EncryptedDataLenRange => 0x0041,
            ReturnValue::FunctionCanceled => 0x0050,
            ReturnValue::FunctionNotParallel => 0x0051,
            ReturnValue::FunctionNotSupported => 0x0054,
            ReturnValue::KeyHandleInvalid => 0x0060,
            ReturnValue::KeySizeRange => 0x0062,
            ReturnValue::KeyTypeInconsistent => 0x0063,
            ReturnValue::KeyNotNeeded => 0x0064,
            ReturnValue::KeyChanged => 0x0065,
            ReturnValue::KeyNeeded => 0x0066,
            ReturnValue::KeyIndigestible => 0x0067,
            ReturnValue::KeyFunctionNotPermitted => 0x0068,
            ReturnValue::KeyNotWrappable => 0x0069,
            ReturnValue::KeyUnextractable => 0x006a,
            ReturnValue::MechanismInvalid => 0x0070,
            ReturnValue::MechanismParamInvalid => 0x0071,
            ReturnValue::ObjectHandleInvalid => 0x0082,
            ReturnValue::OperationActive => 0x0090,
            ReturnValue::OperationNotInitialized => 0x0091,
            ReturnValue::PinIncorrect => 0x00a0,
            ReturnValue::PinInvalid => 0x00a1,
            ReturnValue::PinLenRange => 0x00a2,
            ReturnValue::PinExpired => 0x00a3,
            ReturnValue::PinLocked => 0x00a4,
            ReturnValue::SessionClosed => 0x00b0,
            ReturnValue::SessionCount => 0x00b1,
            ReturnValue::SessionHandleInvalid => 0x00b3,
            ReturnValue::SessionParallelNotSupported => 0x00b4,
            ReturnValue::SessionReadOnly => 0x00b5,
            ReturnValue::SessionExists => 0x00b6,
            ReturnValue::SessionReadOnlyExists => 0x00b7,
            ReturnValue::SessionReadWriteSoExists => 0x00b8,
            ReturnValue::SignatureInvalid => 0x00c0,
            ReturnValue::SignatureLenRange => 0x00c1,
            ReturnValue::TemplateIncomplete => 0x00d0,
            ReturnValue::TemplateInconsistent => 0x00d1,
            ReturnValue::TokenNotPresent => 0x00e0,
            ReturnValue::TokenNotRecognized => 0x00e1,
            ReturnValue::TokenWriteProtected => 0x00e2,
            ReturnValue::UnwrappingKeyHandleInvalid => 0x00f0,
            ReturnValue::UnwrappingKeySizeRange => 0x00f1,
            ReturnValue::UnwrappingKeyTypeInconsistent => 0x00f2,
            ReturnValue::UserAlreadyLoggedIn => 0x0100,
            ReturnValue::UserNotLoggedIn => 0x0101,
            ReturnValue::UserPinNotInitialized => 0x0102,
            ReturnValue::UserTypeInvalid => 0x0103,
            ReturnValue::UserAnotherAlreadyLoggedIn => 0x0104,
            ReturnValue::UserTooManyTypes => 0x0105,
            ReturnValue::WrappedKeyInvalid => 0x0110,
            ReturnValue::WrappedKeyLenRange => 0x0112,
            ReturnValue::WrappingKeyHandleInvalid => 0x0113,
            ReturnValue::WrappingKeySizeRange => 0x0114,
            ReturnValue::WrappingKeyTypeInconsistent => 0x0115,
            ReturnValue::RandomSeedNotSupported => 0x0120,
            ReturnValue::RandomNoRng => 0x0121,
            ReturnValue::DomainParamsInvalid => 0x0130,
            ReturnValue::CurveNotSupported => 0x0140,
            ReturnValue::BufferTooSmall => 0x0150,
            ReturnValue::SavedStateInvalid => 0x0160,
            ReturnValue::InformationSensitive => 0x0170,
            ReturnValue::StateUnsaveable => 0x0180,
            ReturnValue::CryptokiNotInitialized => 0x0190,
            ReturnValue::CryptokiAlreadyInitialized => 0x0191,
            ReturnValue::MutexBad => 0x01a0,
            ReturnValue::MutexNotLocked => 0x01a1,
            ReturnValue::NewPinMode => 0x01b0,
            ReturnValue::NextOtp => 0x01b1,
            ReturnValue::ExceededMaxIterations => 0x01b5,
            ReturnValue::FipsSelfTestFailed => 0x01b6,
            ReturnValue::LibraryLoadFailed => 0x01b7,
            ReturnValue::PinTooWeak => 0x01b8,
            ReturnValue::PublicKeyInvalid => 0x01b9,
            ReturnValue::FunctionRejected => 0x0200,
            ReturnValue::VendorDefined => 0x80000000,
        }
    }

    /// The value with the given numeric code, if there is one.
    pub open spec fn spec_from_code(code: u64) -> Option<ReturnValue> {
        match code {
            0x0000 => Some(ReturnValue::Success),
            0x0001 => Some(ReturnValue::Cancel),
            0x0002 => Some(ReturnValue::HostMemory),
            0x0003 => Some(ReturnValue::SlotIdInvalid),
            0x0005 => Some(ReturnValue::GeneralError),
            0x0006 => Some(ReturnValue::FunctionFailed),
            0x0007 => Some(ReturnValue::ArgumentsBad),
            0x0008 => Some(ReturnValue::NoEvent),
            0x0009 => Some(ReturnValue::NeedToCreateThreads),
            0x000a => Some(ReturnValue::CantLock),
            0x0010 => Some(ReturnValue::AttributeReadOnly),
            0x0011 => Some(ReturnValue::AttributeSensitive),
            0x0012 => Some(ReturnValue::AttributeTypeInvalid),
            0x0013 => Some(ReturnValue::AttributeValueInvalid),
            0x001b => Some(ReturnValue::ActionProhibited),
            0x0020 => Some(ReturnValue::DataInvalid),
            0x0021 => Some(ReturnValue::DataLenRange),
            0x0030 => Some(ReturnValue::DeviceError),
            0x0031 => Some(ReturnValue::DeviceMemory),
            0x0032 => Some(ReturnValue::DeviceRemoved),
            0x0040 => Some(ReturnValue::EncryptedDataInvalid),
            0x0041 => Some(ReturnValue::EncryptedDataLenRange),
            0x0050 => Some(ReturnValue::FunctionCanceled),
            0x0051 => Some(ReturnValue::FunctionNotParallel),
            0x0054 => Some(ReturnValue::FunctionNotSupported),
            0x0060 => Some(ReturnValue::KeyHandleInvalid),
            0x0062 => Some(ReturnValue::KeySizeRange),
            0x0063 => Some(ReturnValue::KeyTypeInconsistent),
            0x0064 => Some(ReturnValue::KeyNotNeeded),
            0x0065 => Some(ReturnValue::KeyChanged),
            0x0066 => Some(ReturnValue::KeyNeeded),
            0x0067 => Some(ReturnValue::KeyIndigestible),
            0x0068 => Some(ReturnValue::KeyFunctionNotPermitted),
            0x0069 => Some(ReturnValue::KeyNotWrappable),
            0x006a => Some(ReturnValue::KeyUnextractable),
            0x0070 => Some(ReturnValue::MechanismInvalid),
            0x0071 => Some(ReturnValue::MechanismParamInvalid),
            0x0082 => Some(ReturnValue::ObjectHandleInvalid),
            0x0090 => Some(ReturnValue::OperationActive),
            0x0091 => Some(ReturnValue::OperationNotInitialized),
            0x00a0 => Some(ReturnValue::PinIncorrect),
            0x00a1 => Some(ReturnValue::PinInvalid),
            0x00a2 => Some(ReturnValue::PinLenRange),
            0x00a3 => Some(ReturnValue::PinExpired),
            0x00a4 => Some(ReturnValue::PinLocked),
            0x00b0 => Some(ReturnValue::SessionClosed),
            0x00b1 => Some(ReturnValue::SessionCount),
            0x00b3 => Some(ReturnValue::SessionHandleInvalid),
            0x00b4 => Some(ReturnValue::SessionParallelNotSupported),
            0x00b5 => Some(ReturnValue::SessionReadOnly),
            0x00b6 => Some(ReturnValue::SessionExists),
            0x00b7 => Some(ReturnValue::SessionReadOnlyExists),
            0x00b8 => Some(ReturnValue::SessionReadWriteSoExists),
            0x00c0 => Some(ReturnValue::SignatureInvalid),
            0x00c1 => Some(ReturnValue::SignatureLenRange),
            0x00d0 => Some(ReturnValue::TemplateIncomplete),
            0x00d1 => Some(ReturnValue::TemplateInconsistent),
            0x00e0 => Some(ReturnValue::TokenNotPresent),
            0x00e1 => Some(ReturnValue::TokenNotRecognized),
            0x00e2 => Some(ReturnValue::TokenWriteProtected),
            0x00f0 => Some(ReturnValue::UnwrappingKeyHandleInvalid),
            0x00f1 => Some(ReturnValue::UnwrappingKeySizeRange),
            0x00f2 => Some(ReturnValue::UnwrappingKeyTypeInconsistent),
            0x0100 => Some(ReturnValue::UserAlreadyLoggedIn),
            0x0101 => Some(ReturnValue::UserNotLoggedIn),
            0x0102 => Some(ReturnValue::UserPinNotInitialized),
            0x0103 => Some(ReturnValue::UserTypeInvalid),
            0x0104 => Some(ReturnValue::UserAnotherAlreadyLoggedIn),
            0x0105 => Some(ReturnValue::UserTooManyTypes),
            0x0110 => Some(ReturnValue::WrappedKeyInvalid),
            0x0112 => Some(ReturnValue::WrappedKeyLenRange),
            0x0113 => Some(ReturnValue::WrappingKeyHandleInvalid),
            0x0114 => Some(ReturnValue::WrappingKeySizeRange),
            0x0115 => Some(ReturnValue::WrappingKeyTypeInconsistent),
            0x0120 => Some(ReturnValue::RandomSeedNotSupported),
            0x0121 => Some(ReturnValue::RandomNoRng),
            0x0130 => Some(ReturnValue::DomainParamsInvalid),
            0x0140 => Some(ReturnValue::CurveNotSupported),
            0x0150 => Some(ReturnValue::BufferTooSmall),
            0x0160 => Some(ReturnValue::SavedStateInvalid),
            0x0170 => Some(ReturnValue::InformationSensitive),
            0x0180 => Some(ReturnValue::StateUnsaveable),
            0x0190 => Some(ReturnValue::CryptokiNotInitialized),
            0x0191 => Some(ReturnValue::CryptokiAlreadyInitialized),
            0x01a0 => Some(ReturnValue::MutexBad),
            0x01a1 => Some(ReturnValue::MutexNotLocked),
            0x01b0 => Some(ReturnValue::NewPinMode),
            0x01b1 => Some(ReturnValue::NextOtp),
            0x01b5 => Some(ReturnValue::ExceededMaxIterations),
            0x01b6 => Some(ReturnValue::FipsSelfTestFailed),
            0x01b7 => Some(ReturnValue::LibraryLoadFailed),
            0x01b8 => Some(ReturnValue::PinTooWeak),
            0x01b9 => Some(ReturnValue::PublicKeyInvalid),
            0x0200 => Some(ReturnValue::FunctionRejected),
            0x80000000 => Some(ReturnValue::VendorDefined),
            _ => None,
        }
    }

    /// Returns the numeric code of this value.
    pub fn code(&self) -> (r: u64)
        ensures
            r == self.spec_code(),
    {
        match self {
            ReturnValue::Success => 0x0000,
            ReturnValue::Cancel => 0x0001,
            ReturnValue::HostMemory => 0x0002,
            ReturnValue::SlotIdInvalid => 0x0003,
            ReturnValue::GeneralError => 0x0005,
            ReturnValue::FunctionFailed => 0x0006,
            ReturnValue::ArgumentsBad => 0x0007,
            ReturnValue::NoEvent => 0x0008,
            ReturnValue::NeedToCreateThreads => 0x0009,
            ReturnValue::CantLock => 0x000a,
            ReturnValue::AttributeReadOnly => 0x0010,
            ReturnValue::AttributeSensitive => 0x0011,
            ReturnValue::AttributeTypeInvalid => 0x0012,
            ReturnValue::AttributeValueInvalid => 0x0013,
            ReturnValue::ActionProhibited => 0x001b,
            ReturnValue::DataInvalid => 0x0020,
            ReturnValue::DataLenRange => 0x0021,
            ReturnValue::DeviceError => 0x0030,
            ReturnValue::DeviceMemory => 0x0031,
            ReturnValue::DeviceRemoved => 0x0032,
            ReturnValue::EncryptedDataInvalid => 0x0040,
            ReturnValue::EncryptedDataLenRange => 0x0041,
            ReturnValue::FunctionCanceled => 0x0050,
            ReturnValue::FunctionNotParallel => 0x0051,
            ReturnValue::FunctionNotSupported => 0x0054,
            ReturnValue::KeyHandleInvalid => 0x0060,
            ReturnValue::KeySizeRange => 0x0062,
            ReturnValue::KeyTypeInconsistent => 0x0063,
            ReturnValue::KeyNotNeeded => 0x0064,
            ReturnValue::KeyChanged => 0x0065,
            ReturnValue::KeyNeeded => 0x0066,
            ReturnValue::KeyIndigestible => 0x0067,
            ReturnValue::KeyFunctionNotPermitted => 0x0068,
            ReturnValue::KeyNotWrappable => 0x0069,
            ReturnValue::KeyUnextractable => 0x006a,
            ReturnValue::MechanismInvalid => 0x0070,
            ReturnValue::MechanismParamInvalid => 0x0071,
            ReturnValue::ObjectHandleInvalid => 0x0082,
            ReturnValue::OperationActive => 0x0090,
            ReturnValue::OperationNotInitialized => 0x0091,
            ReturnValue::PinIncorrect => 0x00a0,
            ReturnValue::PinInvalid => 0x00a1,
            ReturnValue::PinLenRange => 0x00a2,
            ReturnValue::PinExpired => 0x00a3,
            ReturnValue::PinLocked => 0x00a4,
            ReturnValue::SessionClosed => 0x00b0,
            ReturnValue::SessionCount => 0x00b1,
            ReturnValue::SessionHandleInvalid => 0x00b3,
            ReturnValue::SessionParallelNotSupported => 0x00b4,
            ReturnValue::SessionReadOnly => 0x00b5,
            ReturnValue::SessionExists => 0x00b6,
            ReturnValue::SessionReadOnlyExists => 0x00b7,
            ReturnValue::SessionReadWriteSoExists => 0x00b8,
            ReturnValue::SignatureInvalid => 0x00c0,
            ReturnValue::SignatureLenRange => 0x00c1,
            ReturnValue::TemplateIncomplete => 0x00d0,
            ReturnValue::TemplateInconsistent => 0x00d1,
            ReturnValue::TokenNotPresent => 0x00e0,
            ReturnValue::TokenNotRecognized => 0x00e1,
            ReturnValue::TokenWriteProtected => 0x00e2,
            ReturnValue::UnwrappingKeyHandleInvalid => 0x00f0,
            ReturnValue::UnwrappingKeySizeRange => 0x00f1,
            ReturnValue::UnwrappingKeyTypeInconsistent => 0x00f2,
            ReturnValue::UserAlreadyLoggedIn => 0x0100,
            ReturnValue::UserNotLoggedIn => 0x0101,
            ReturnValue::UserPinNotInitialized => 0x0102,
            ReturnValue::UserTypeInvalid => 0x0103,
            ReturnValue::UserAnotherAlreadyLoggedIn => 0x0104,
            ReturnValue::UserTooManyTypes => 0x0105,
            ReturnValue::WrappedKeyInvalid => 0x0110,
            ReturnValue::WrappedKeyLenRange => 0x0112,
            ReturnValue::WrappingKeyHandleInvalid => 0x0113,
            ReturnValue::WrappingKeySizeRange => 0x0114,
            ReturnValue::WrappingKeyTypeInconsistent => 0x0115,
            ReturnValue::RandomSeedNotSupported => 0x0120,
            ReturnValue::RandomNoRng => 0x0121,
            ReturnValue::DomainParamsInvalid => 0x0130,
            ReturnValue::CurveNotSupported => 0x0140,
            ReturnValue::BufferTooSmall => 0x0150,
            ReturnValue::SavedStateInvalid => 0x0160,
            ReturnValue::InformationSensitive => 0x0170,
            ReturnValue::StateUnsaveable => 0x0180,
            ReturnValue::CryptokiNotInitialized => 0x0190,
            ReturnValue::CryptokiAlreadyInitialized => 0x0191,
            ReturnValue::MutexBad => 0x01a0,
            ReturnValue::MutexNotLocked => 0x01a1,
            ReturnValue::NewPinMode => 0x01b0,
            ReturnValue::NextOtp => 0x01b1,
            ReturnValue::ExceededMaxIterations => 0x01b5,
            ReturnValue::FipsSelfTestFailed => 0x01b6,
            ReturnValue::LibraryLoadFailed => 0x01b7,
            ReturnValue::PinTooWeak => 0x01b8,
            ReturnValue::PublicKeyInvalid => 0x01b9,
            ReturnValue::FunctionRejected => 0x0200,
            ReturnValue::VendorDefined => 0x80000000,
        }
    }

    /// Returns the value with the given numeric code, if there is one.
    pub fn from_code(code: u64) -> (r: Option<ReturnValue>)
        ensures
            r == Self::spec_from_code(code),
    {
        match code {
            0x0000 => Some(ReturnValue::Success),
            0x0001 => Some(ReturnValue::Cancel),
            0x0002 => Some(ReturnValue::HostMemory),
            0x0003 => Some(ReturnValue::SlotIdInvalid),
            0x0005 => Some(ReturnValue::GeneralError),
            0x0006 => Some(ReturnValue::FunctionFailed),
            0x0007 => Some(ReturnValue::ArgumentsBad),
            0x0008 => Some(ReturnValue::NoEvent),
            0x0009 => Some(ReturnValue::NeedToCreateThreads),
            0x000a => Some(ReturnValue::CantLock),
            0x0010 => Some(ReturnValue::AttributeReadOnly),
            0x0011 => Some(ReturnValue::AttributeSensitive),
            0x0012 => Some(ReturnValue::AttributeTypeInvalid),
            0x0013 => Some(ReturnValue::AttributeValueInvalid),
            0x001b => Some(ReturnValue::ActionProhibited),
            0x0020 => Some(ReturnValue::DataInvalid),
            0x0021 => Some(ReturnValue::DataLenRange),
            0x0030 => Some(ReturnValue::DeviceError),
            0x0031 => Some(ReturnValue::DeviceMemory),
            0x0032 => Some(ReturnValue::DeviceRemoved),
            0x0040 => Some(ReturnValue::EncryptedDataInvalid),
            0x0041 => Some(ReturnValue::EncryptedDataLenRange),
            0x0050 => Some(ReturnValue::FunctionCanceled),
            0x0051 => Some(ReturnValue::FunctionNotParallel),
            0x0054 => Some(ReturnValue::FunctionNotSupported),
            0x0060 => Some(ReturnValue::KeyHandleInvalid),
            0x0062 => Some(ReturnValue::KeySizeRange),
            0x0063 => Some(ReturnValue::KeyTypeInconsistent),
            0x0064 => Some(ReturnValue::KeyNotNeeded),
            0x0065 => Some(ReturnValue::KeyChanged),
            0x0066 => Some(ReturnValue::KeyNeeded),
            0x0067 => Some(ReturnValue::KeyIndigestible),
            0x0068 => Some(ReturnValue::KeyFunctionNotPermitted),
            0x0069 => Some(ReturnValue::KeyNotWrappable),
            0x006a => Some(ReturnValue::KeyUnextractable),
            0x0070 => Some(ReturnValue::MechanismInvalid),
            0x0071 => Some(ReturnValue::MechanismParamInvalid),
            0x0082 => Some(ReturnValue::ObjectHandleInvalid),
            0x0090 => Some(ReturnValue::OperationActive),
            0x0091 => Some(ReturnValue::OperationNotInitialized),
            0x00a0 => Some(ReturnValue::PinIncorrect),
            0x00a1 => Some(ReturnValue::PinInvalid),
            0x00a2 => Some(ReturnValue::PinLenRange),
            0x00a3 => Some(ReturnValue::PinExpired),
            0x00a4 => Some(ReturnValue::PinLocked),
            0x00b0 => Some(ReturnValue::SessionClosed),
            0x00b1 => Some(ReturnValue::SessionCount),
            0x00b3 => Some(ReturnValue::SessionHandleInvalid),
            0x00b4 => Some(ReturnValue::SessionParallelNotSupported),
            0x00b5 => Some(ReturnValue::SessionReadOnly),
            0x00b6 => Some(ReturnValue::SessionExists),
            0x00b7 => Some(ReturnValue::SessionReadOnlyExists),
            0x00b8 => Some(ReturnValue::SessionReadWriteSoExists),
            0x00c0 => Some(ReturnValue::SignatureInvalid),
            0x00c1 => Some(ReturnValue::SignatureLenRange),
            0x00d0 => Some(ReturnValue::TemplateIncomplete),
            0x00d1 => Some(ReturnValue::TemplateInconsistent),
            0x00e0 => Some(ReturnValue::TokenNotPresent),
            0x00e1 => Some(ReturnValue::TokenNotRecognized),
            0x00e2 => Some(ReturnValue::TokenWriteProtected),
            0x00f0 => Some(ReturnValue::UnwrappingKeyHandleInvalid),
            0x00f1 => Some(ReturnValue::UnwrappingKeySizeRange),
            0x00f2 => Some(ReturnValue::UnwrappingKeyTypeInconsistent),
            0x0100 => Some(ReturnValue::UserAlreadyLoggedIn),
            0x0101 => Some(ReturnValue::UserNotLoggedIn),
            0x0102 => Some(ReturnValue::UserPinNotInitialized),
            0x0103 => Some(ReturnValue::UserTypeInvalid),
            0x0104 => Some(ReturnValue::UserAnotherAlreadyLoggedIn),
            0x0105 => Some(ReturnValue::UserTooManyTypes),
            0x0110 => Some(ReturnValue::WrappedKeyInvalid),
            0x0112 => Some(ReturnValue::WrappedKeyLenRange),
            0x0113 => Some(ReturnValue::WrappingKeyHandleInvalid),
            0x0114 => Some(ReturnValue::WrappingKeySizeRange),
            0x0115 => Some(ReturnValue::WrappingKeyTypeInconsistent),
            0x0120 => Some(ReturnValue::RandomSeedNotSupported),
            0x0121 => Some(ReturnValue::RandomNoRng),
            0x0130 => Some(ReturnValue::DomainParamsInvalid),
            0x0140 => Some(ReturnValue::CurveNotSupported),
            0x0150 => Some(ReturnValue::BufferTooSmall),
            0x0160 => Some(ReturnValue::SavedStateInvalid),
            0x0170 => Some(ReturnValue::InformationSensitive),
            0x0180 => Some(ReturnValue::StateUnsaveable),
            0x0190 => Some(ReturnValue::CryptokiNotInitialized),
            0x0191 => Some(ReturnValue::CryptokiAlreadyInitialized),
            0x01a0 => Some(ReturnValue::MutexBad),
            0x01a1 => Some(ReturnValue::MutexNotLocked),
            0x01b0 => Some(ReturnValue::NewPinMode),
            0x01b1 => Some(ReturnValue::NextOtp),
            0x01b5 => Some(ReturnValue::ExceededMaxIterations),
            0x01b6 => Some(ReturnValue::FipsSelfTestFailed),
            0x01b7 => Some(ReturnValue::LibraryLoadFailed),
            0x01b8 => Some(ReturnValue::PinTooWeak),
            0x01b9 => Some(ReturnValue::PublicKeyInvalid),
            0x0200 => Some(ReturnValue::FunctionRejected),
            0x80000000 => Some(ReturnValue::VendorDefined),
            _ => None,
        }
    }

    /// Every value reads back from its code.
    pub proof fn lemma_code_round_trip(self)
        ensures
            Self::spec_from_code(self.spec_code()) == Some(self),
    {
    }
}

/// Key types of the token interface.
#[derive(Clone, Copy, Debug, PartialEq, Eq, Structural)]
pub enum KeyType {
    Rsa,
    Dsa,
    Dh,
    Ec,
    X942Dh,
    Kea,
    GenericSecret,
    Rc2,
    Rc4,
    Des,
    Des2,
    Des3,
    Cast,
    Cast3,
    Cast128,
    Rc5,
    Idea,
    Skipjack,
    Baton,
    Juniper,
    Cdmf,
    Aes,
    Blowfish,
    Twofish,
    Securid,
    Hotp,
    Acti,
    Camellia,
    Aria,
    Md5Hmac,
    Sha1Hmac,
    Ripemd128Hmac,
    Ripemd160Hmac,
    Sha256Hmac,
    Sha384Hmac,
    Sha512Hmac,
    Sha224Hmac,
    Seed,
    Gostr3410,
    Gostr3411,
    Gost28147,
    VendorDefined,
}

impl KeyType {
    /// The numeric code of this value.
    pub open spec fn spec_code(self) -> u64 {
        match self {
            KeyType::Rsa => 0x0000,
            KeyType::Dsa => 0x0001,
            KeyType::Dh => 0x0002,
            KeyType::Ec => 0x0003,
            KeyType::X942Dh => 0x0004,
            KeyType::Kea => 0x0005,
            KeyType::GenericSecret => 0x0010,
            KeyType::Rc2 => 0x0011,
            KeyType::Rc4 => 0x0012,
            KeyType::Des => 0x0013,
            KeyType::Des2 => 0x0014,
            KeyType::Des3 => 0x0015,
            KeyType::Cast => 0x0016,
            KeyType::Cast3 => 0x0017,
            KeyType::Cast128 => 0x0018,
            KeyType::Rc5 => 0x0019,
            KeyType::Idea => 0x001a,
            KeyType::Skipjack => 0x001b,
            KeyType::Baton => 0x001c,
            KeyType::Juniper => 0x001d,
            KeyType::Cdmf => 0x001e,
            KeyType::Aes => 0x001f,
            KeyType::Blowfish => 0x0020,
            KeyType::Twofish => 0x0021,
            KeyType::Securid => 0x0022,
            KeyType::Hotp => 0x0023,
            KeyType::Acti => 0x0024,
            KeyType::Camellia => 0x0025,
            KeyType::Aria => 0x0026,
            KeyType::Md5Hmac => 0x0027,
            KeyType::Sha1Hmac => 0x0028,
            KeyType::Ripemd128Hmac => 0x0029,
            KeyType::Ripemd160Hmac => 0x002a,
            KeyType::Sha256Hmac => 0x002b,
            KeyType::Sha384Hmac => 0x002c,
            KeyType::Sha512Hmac => 0x002d,
            KeyType::Sha224Hmac => 0x002e,
            KeyType::Seed => 0x002f,
            KeyType::Gostr3410 => 0x0030,
            KeyType::Gostr3411 => 0x0031,
            KeyType::Gost28147 => 0x0032,
            KeyType::VendorDefined => 0x80000000,
        }
    }

    /// The value with the given numeric code, if there is one.
    pub open spec fn spec_from_code(code: u64) -> Option<KeyType> {
        match code {
            0x0000 => Some(KeyType::Rsa),
            0x0001 => Some(KeyType::Dsa),
            0x0002 => Some(KeyType::Dh),
            0x0003 => Some(KeyType::Ec),
            0x0004 => Some(KeyType::X942Dh),
            0x0005 => Some(KeyType::Kea),
            0x0010 => Some(KeyType::GenericSecret),
            0x0011 => Some(KeyType::Rc2),
            0x0012 => Some(KeyType::Rc4),
            0x0013 => Some(KeyType::Des),
            0x0014 => Some(KeyType::Des2),
            0x0015 => Some(KeyType::Des3),
            0x0016 => Some(KeyType::Cast),
            0x0017 => Some(KeyType::Cast3),
            0x0018 => Some(KeyType::Cast128),
            0x0019 => Some(KeyType::Rc5),
            0x001a => Some(KeyType::Idea),
            0x001b => Some(KeyType::Skipjack),
            0x001c => Some(KeyType::Baton),
            0x001d => Some(KeyType::Juniper),
            0x001e => Some(KeyType::Cdmf),
            0x001f => Some(KeyType::Aes),
            0x0020 => Some(KeyType::Blowfish),
            0x0021 => Some(KeyType::Twofish),
            0x0022 => Some(KeyType::Securid),
            0x0023 => Some(KeyType::Hotp),
            0x0024 => Some(KeyType::Acti),
            0x0025 => Some(KeyType::Camellia),
            0x0026 => Some(KeyType::Aria),
            0x0027 => Some(KeyType::Md5Hmac),
            0x0028 => Some(KeyType::Sha1Hmac),
            0x0029 => Some(KeyType::Ripemd128Hmac),
            0x002a => Some(KeyType::Ripemd160Hmac),
            0x002b => Some(KeyType::Sha256Hmac),
            0x002c => Some(KeyType::Sha384Hmac),
            0x002d => Some(KeyType::Sha512Hmac),
            0x002e => Some(KeyType::Sha224Hmac),
            0x002f => Some(KeyType::Seed),
            0x0030 => Some(KeyType::Gostr3410),
            0x0031 => Some(KeyType::Gostr3411),
            0x0032 => Some(KeyType::Gost28147),
            0x80000000 => Some(KeyType::VendorDefined),
            _ => None,
        }
    }

    /// Returns the numeric code of this value.
    pub fn code(&self) -> (r: u64)
        ensures
            r == self.spec_code(),
    {
        match self {
            KeyType::Rsa => 0x0000,
            KeyType::Dsa => 0x0001,
            KeyType::Dh => 0x0002,
            KeyType::Ec => 0x0003,
            KeyType::X942Dh => 0x0004,
            KeyType::Kea => 0x0005,
            KeyType::GenericSecret => 0x0010,
            KeyType::Rc2 => 0x0011,
            KeyType::Rc4 => 0x0012,
            KeyType::Des => 0x0013,
            KeyType::Des2 => 0x0014,
            KeyType::Des3 => 0x0015,
            KeyType::Cast => 0x0016,
            KeyType::Cast3 => 0x0017,
            KeyType::Cast128 => 0x0018,
            KeyType::Rc5 => 0x0019,
            KeyType::Idea => 0x001a,
            KeyType::Skipjack => 0x001b,
            KeyType::Baton => 0x001c,
            KeyType::Juniper => 0x001d,
            KeyType::Cdmf => 0x001e,
            KeyType::Aes => 0x001f,
            KeyType::Blowfish => 0x0020,
            KeyType::Twofish => 0x0021,
            KeyType::Securid => 0x0022,
            KeyType::Hotp => 0x0023,
            KeyType::Acti => 0x0024,
            KeyType::Camellia => 0x0025,
            KeyType::Aria => 0x0026,
            KeyType::Md5Hmac => 0x0027,
            KeyType::Sha1Hmac => 0x0028,
            KeyType::Ripemd128Hmac => 0x0029,
            KeyType::Ripemd160Hmac => 0x002a,
            KeyType::Sha256Hmac => 0x002b,
            KeyType::Sha384Hmac => 0x002c,
            KeyType::Sha512Hmac => 0x002d,
            KeyType::Sha224Hmac => 0x002e,
            KeyType::Seed => 0x002f,
            KeyType::Gostr3410 => 0x0030,
            KeyType::Gostr3411 => 0x0031,
            KeyType::Gost28147 => 0x0032,
            KeyType::VendorDefined => 0x80000000,
        }
    }

    /// Returns the value with the given numeric code, if there is one.
    pub fn from_code(code: u64) -> (r: Option<KeyType>)
        ensures
            r == Self::spec_from_code(code),
    {
        match code {
            0x0000 => Some(KeyType::Rsa),
            0x0001 => Some(KeyType::Dsa),
            0x0002 => Some(KeyType::Dh),
            0x0003 => Some(KeyType::Ec),
            0x0004 => Some(KeyType::X942Dh),
            0x0005 => Some(KeyType::Kea),
            0x0010 => Some(KeyType::GenericSecret),
            0x0011 => Some(KeyType::Rc2),
            0x0012 => Some(KeyType::Rc4),
            0x0013 => Some(KeyType::Des),
            0x0014 => Some(KeyType::Des2),
            0x0015 => Some(KeyType::Des3),
            0x0016 => Some(KeyType::Cast),
            0x0017 => Some(KeyType::Cast3),
            0x0018 => Some(KeyType::Cast128),
            0x0019 => Some(KeyType::Rc5),
            0x001a => Some(KeyType::Idea),
            0x001b => Some(KeyType::Skipjack),
            0x001c => Some(KeyType::Baton),
            0x001d => Some(KeyType::Juniper),
            0x001e => Some(KeyType::Cdmf),
            0x001f => Some(KeyType::Aes),
            0x0020 => Some(KeyType::Blowfish),
            0x0021 => Some(KeyType::Twofish),
            0x0022 => Some(KeyType::Securid),
            0x0023 => Some(KeyType::Hotp),
            0x0024 => Some(KeyType::Acti),
            0x0025 => Some(KeyType::Camellia),
            0x0026 => Some(KeyType::Aria),
            0x0027 => Some(KeyType::Md5Hmac),
            0x0028 => Some(KeyType::Sha1Hmac),
            0x0029 => Some(KeyType::Ripemd128Hmac),
            0x002a => Some(KeyType::Ripemd160Hmac),
            0x002b => Some(KeyType::Sha256Hmac),
            0x002c => Some(KeyType::Sha384Hmac),
            0x002d => Some(KeyType::Sha512Hmac),
            0x002e => Some(KeyType::Sha224Hmac),
            0x002f => Some(KeyType::Seed),
            0x0030 => Some(KeyType::Gostr3410),
            0x0031 => Some(KeyType::Gostr3411),
            0x0032 => Some(KeyType::Gost28147),
            0x80000000 => Some(KeyType::VendorDefined),
            _ => None,
        }
    }

    /// Every value reads back from its code.
    pub proof fn lemma_code_round_trip(self)
        ensures
            Self::spec_from_code(self.spec_code()) == Some(self),
    {
    }
}

/// Object classes of the token interface.
#[derive(Clone, Copy, Debug, PartialEq, Eq, Structural)]
pub enum ObjectClass {
    Data,
    Certificate,
    PublicKey,
    PrivateKey,
    SecretKey,
    HwFeature,
    DomainParameters,
    Mechanism,
    OtpKey,
    VendorDefined,
}

impl ObjectClass {
    /// The numeric code of this value.
    pub open spec fn spec_code(self) -> u64 {
        match self {
            ObjectClass::Data => 0,
            ObjectClass::Certificate => 1,
            ObjectClass::PublicKey => 2,
            ObjectClass::PrivateKey => 3,
            ObjectClass::SecretKey => 4,
            ObjectClass::HwFeature => 5,
            ObjectClass::DomainParameters => 6,
            ObjectClass::Mechanism => 7,
            ObjectClass::OtpKey => 8,
            ObjectClass::VendorDefined => 0x80000000,
        }
    }

    /// The value with the given numeric code, if there is one.
    pub open spec fn spec_from_code(code: u64) -> Option<ObjectClass> {
        match code {
            0 => Some(ObjectClass::Data),
            1 => Some(ObjectClass::Certificate),
            2 => Some(ObjectClass::PublicKey),
            3 => Some(ObjectClass::PrivateKey),
            4 => Some(ObjectClass::SecretKey),
            5 => Some(ObjectClass::HwFeature),
            6 => Some(ObjectClass::DomainParameters),
            7 => Some(ObjectClass::Mechanism),
            8 => Some(ObjectClass::OtpKey),
            0x80000000 => Some(ObjectClass::VendorDefined),
            _ => None,
        }
    }

    /// Returns the numeric code of this value.
    pub fn code(&self) -> (r: u64)
        ensures
            r == self.spec_code(),
    {
        match self {
            ObjectClass::Data => 0,
            ObjectClass::Certificate => 1,
            ObjectClass::PublicKey => 2,
            ObjectClass::PrivateKey => 3,
            ObjectClass::SecretKey => 4,
            ObjectClass::HwFeature => 5,
            ObjectClass::DomainParameters => 6,
            ObjectClass::Mechanism => 7,
            ObjectClass::OtpKey => 8,
            ObjectClass::VendorDefined => 0x80000000,
        }
    }

    /// Returns the value with the given numeric code, if there is one.
    pub fn from_code(code: u64) -> (r: Option<ObjectClass>)
        ensures
            r == Self::spec_from_code(code),
    {
        match code {
            0 => Some(ObjectClass::Data),
            1 => Some(ObjectClass::Certificate),
            2 => Some(ObjectClass::PublicKey),
            3 => Some(ObjectClass::PrivateKey),
            4 => Some(ObjectClass::SecretKey),
            5 => Some(ObjectClass::HwFeature),
            6 => Some(ObjectClass::DomainParameters),
            7 => Some(ObjectClass::Mechanism),
            8 => Some(ObjectClass::OtpKey),
            0x80000000 => Some(ObjectClass::VendorDefined),
            _ => None,
        }
    }

    /// Every value reads back from its code.
    pub proof fn lemma_code_round_trip(self)
        ensures
            Self::spec_from_code(self.spec_code()) == Some(self),
    {
    }
}

/// Categories of certificates.
#[derive(Clone, Copy, Debug, PartialEq, Eq, Structural)]
pub enum CertificateCategory {
    Unspecified,
    TokenUser,
    Authority,
    OtherEntity,
}

impl CertificateCategory {
    /// The numeric code of this value.
    pub open spec fn spec_code(self) -> u64 {
        match self {
            CertificateCategory::Unspecified => 0,
            CertificateCategory::TokenUser => 1,
            CertificateCategory::Authority => 2,
            CertificateCategory::OtherEntity => 3,
        }
    }

    /// The value with the given numeric code, if there is one.
    pub open spec fn spec_from_code(code: u64) -> Option<CertificateCategory> {
        match code {
            0 => Some(CertificateCategory::Unspecified),
            1 => Some(CertificateCategory::TokenUser),
            2 => Some(CertificateCategory::Authority),
            3 => Some(CertificateCategory::OtherEntity),
            _ => None,
        }
    }

    /// Returns the numeric code of this value.
    pub fn code(&self) -> (r: u64)
        ensures
            r == self.spec_code(),
    {
        match self {
            CertificateCategory::Unspecified => 0,
            CertificateCategory::TokenUser => 1,
            CertificateCategory::Authority => 2,
            CertificateCategory::OtherEntity => 3,
        }
    }

    /// Returns the value with the given numeric code, if there is one.
    pub fn from_code(code: u64) -> (r: Option<CertificateCategory>)
        ensures
            r == Self::spec_from_code(code),
    {
        match code {
            0 => Some(CertificateCategory::Unspecified),
            1 => Some(CertificateCategory::TokenUser),
            2 => Some(CertificateCategory::Authority),
            3 => Some(CertificateCategory::OtherEntity),
            _ => None,
        }
    }

    /// Every value reads back from its code.
    pub proof fn lemma_code_round_trip(self)
        ensures
            Self::spec_from_code(self.spec_code()) == Some(self),
    {
    }
}

/// Certificate types.
#[derive(Clone, Copy, Debug, PartialEq, Eq, Structural)]
pub enum CertificateType {
    X509,
    X509AttrCert,
    Wtls,
    VendorDefined,
}

impl CertificateType {
    /// The numeric code of this value.
    pub open spec fn spec_code(self) -> u64 {
        match self {
            CertificateType::X509 => 0,
            CertificateType::X509AttrCert => 1,
            CertificateType::Wtls => 2,
            CertificateType::VendorDefined => 0x80000000,
        }
    }

    /// The value with the given numeric code, if there is one.
    pub open spec fn spec_from_code(code: u64) -> Option<CertificateType> {
        match code {
            0 => Some(CertificateType::X509),
            1 => Some(CertificateType::X509AttrCert),
            2 => Some(CertificateType::Wtls),
            0x80000000 => Some(CertificateType::VendorDefined),
            _ => None,
        }
    }

    /// Returns the numeric code of this value.
    pub fn code(&self) -> (r: u64)
        ensures
            r == self.spec_code(),
    {
        match self {
            CertificateType::X509 => 0,
            CertificateType::X509AttrCert => 1,
            CertificateType::Wtls => 2,
            CertificateType::VendorDefined => 0x80000000,
        }
    }

    /// Returns the value with the given numeric code, if there is one.
    pub fn from_code(code: u64) -> (r: Option<CertificateType>)
        ensures
            r == Self::spec_from_code(code),
    {
        match code {
            0 => Some(CertificateType::X509),
            1 => Some(CertificateType::X509AttrCert),
            2 => Some(CertificateType::Wtls),
            0x80000000 => Some(CertificateType::VendorDefined),
            _ => None,
        }
    }

    /// Every value reads back from its code.
    pub proof fn lemma_code_round_trip(self)
        ensures
            Self::spec_from_code(self.spec_code()) == Some(self),
    {
    }
}

/// Hardware feature types.
#[derive(Clone, Copy, Debug, PartialEq, Eq, Structural)]
pub enum HardwareFeatureType {
    MonotonicCounter,
    Clock,
    UserInterface,
    VendorDefined,
}

impl HardwareFeatureType {
    /// The numeric code of this value.
    pub open spec fn spec_code(self) -> u64 {
        match self {
            HardwareFeatureType::MonotonicCounter => 0x01,
            HardwareFeatureType::Clock => 0x02,
            HardwareFeatureType::UserInterface => 0x03,
            HardwareFeatureType::VendorDefined => 0x80000000,
        }
    }

    /// The value with the given numeric code, if there is one.
    pub open spec fn spec_from_code(code: u64) -> Option<HardwareFeatureType> {
        match code {
            0x01 => Some(HardwareFeatureType::MonotonicCounter),
            0x02 => Some(HardwareFeatureType::Clock),
            0x03 => Some(HardwareFeatureType::UserInterface),
            0x80000000 => Some(HardwareFeatureType::VendorDefined),
            _ => None,
        }
    }

    /// Returns the numeric code of this value.
    pub fn code(&self) -> (r: u64)
        ensures
            r == self.spec_code(),
    {
        match self {
            HardwareFeatureType::MonotonicCounter => 0x01,
            HardwareFeatureType::Clock => 0x02,
            HardwareFeatureType::UserInterface => 0x03,
            HardwareFeatureType::VendorDefined => 0x80000000,
        }
    }

    /// Returns the value with the given numeric code, if there is one.
    pub fn from_code(code: u64) -> (r: Option<HardwareFeatureType>)
        ensures
            r == Self::spec_from_code(code),
    {
        match code {
            0x01 => Some(HardwareFeatureType::MonotonicCounter),
            0x02 => Some(HardwareFeatureType::Clock),
            0x03 => Some(HardwareFeatureType::UserInterface),
            0x80000000 => Some(HardwareFeatureType::VendorDefined),
            _ => None,
        }
    }

    /// Every value reads back from its code.
    pub proof fn lemma_code_round_trip(self)
        ensures
            Self::spec_from_code(self.spec_code()) == Some(self),
    {
    }
}

/// Key derivation functions of ECDH key agreement.
#[derive(Clone, Copy, Debug, PartialEq, Eq, Structural)]
pub enum KeyDerivationFunction {
    Null,
    Sha1Kdf2,
    Sha1KdfAsn1,
    Sha1KdfConcatenate,
    Sha224Kdf,
    Sha256Kdf,
    Sha384Kdf,
    Sha512Kdf,
    CpdiversifyKdf,
}

impl KeyDerivationFunction {
    /// The numeric code of this value.
    pub open spec fn spec_code(self) -> u64 {
        match self {
            KeyDerivationFunction::Null => 1,
            KeyDerivationFunction::Sha1Kdf2 => 2,
            KeyDerivationFunction::Sha1KdfAsn1 => 3,
            KeyDerivationFunction::Sha1KdfConcatenate => 4,
            KeyDerivationFunction::Sha224Kdf => 5,
            KeyDerivationFunction::Sha256Kdf => 6,
            KeyDerivationFunction::Sha384Kdf => 7,
            KeyDerivationFunction::Sha512Kdf => 8,
            KeyDerivationFunction::CpdiversifyKdf => 9,
        }
    }

    /// The value with the given numeric code, if there is one.
    pub open spec fn spec_from_code(code: u64) -> Option<KeyDerivationFunction> {
        match code {
            1 => Some(KeyDerivationFunction::Null),
            2 => Some(KeyDerivationFunction::Sha1Kdf2),
            3 => Some(KeyDerivationFunction::Sha1KdfAsn1),
            4 => Some(KeyDerivationFunction::Sha1KdfConcatenate),
            5 => Some(KeyDerivationFunction::Sha224Kdf),
            6 => Some(KeyDerivationFunction::Sha256Kdf),
            7 => Some(KeyDerivationFunction::Sha384Kdf),
            8 => Some(KeyDerivationFunction::Sha512Kdf),
            9 => Some(KeyDerivationFunction::CpdiversifyKdf),
            _ => None,
        }
    }

    /// Returns the numeric code of this value.
    pub fn code(&self) -> (r: u64)
        ensures
            r == self.spec_code(),
    {
        match self {
            KeyDerivationFunction::Null => 1,
            KeyDerivationFunction::Sha1Kdf2 => 2,
            KeyDerivationFunction::Sha1KdfAsn1 => 3,
            KeyDerivationFunction::Sha1KdfConcatenate => 4,
            KeyDerivationFunction::Sha224Kdf => 5,
            KeyDerivationFunction::Sha256Kdf => 6,
            KeyDerivationFunction::Sha384Kdf => 7,
            KeyDerivationFunction::Sha512Kdf => 8,
            KeyDerivationFunction::CpdiversifyKdf => 9,
        }
    }

    /// Returns the value with the given numeric code, if there is one.
    pub fn from_code(code: u64) -> (r: Option<KeyDerivationFunction>)
        ensures
            r == Self::spec_from_code(code),
    {
        match code {
            1 => Some(KeyDerivationFunction::Null),
            2 => Some(KeyDerivationFunction::Sha1Kdf2),
            3 => Some(KeyDerivationFunction::Sha1KdfAsn1),
            4 => Some(KeyDerivationFunction::Sha1KdfConcatenate),
            5 => Some(KeyDerivationFunction::Sha224Kdf),
            6 => Some(KeyDerivationFunction::Sha256Kdf),
            7 => Some(KeyDerivationFunction::Sha384Kdf),
            8 => Some(KeyDerivationFunction::Sha512Kdf),
            9 => Some(KeyDerivationFunction::CpdiversifyKdf),
            _ => None,
        }
    }

    /// Every value reads back from its code.
    pub proof fn lemma_code_round_trip(self)
        ensures
            Self::spec_from_code(self.spec_code()) == Some(self),
    {
    }
}

/// Mask generation functions of RSA PSS and OAEP.
#[derive(Clone, Copy, Debug, PartialEq, Eq, Structural)]
pub enum MaskGenerationFunction {
    Mgf1Sha1,
    Mgf1Sha256,
    Mgf1Sha384,
    Mgf1Sha512,
    Mgf1Sha224,
}

impl MaskGenerationFunction {
    /// The numeric code of this value.
    pub open spec fn spec_code(self) -> u64 {
        match self {
            MaskGenerationFunction::Mgf1Sha1 => 1,
            MaskGenerationFunction::Mgf1Sha256 => 2,
            MaskGenerationFunction::Mgf1Sha384 => 3,
            MaskGenerationFunction::Mgf1Sha512 => 4,
            MaskGenerationFunction::Mgf1Sha224 => 5,
        }
    }

    /// The value with the given numeric code, if there is one.
    pub open spec fn spec_from_code(code: u64) -> Option<MaskGenerationFunction> {
        match code {
            1 => Some(MaskGenerationFunction::Mgf1Sha1),
            2 => Some(MaskGenerationFunction::Mgf1Sha256),
            3 => Some(MaskGenerationFunction::Mgf1Sha384),
            4 => Some(MaskGenerationFunction::Mgf1Sha512),
            5 => Some(MaskGenerationFunction::Mgf1Sha224),
            _ => None,
        }
    }

    /// Returns the numeric code of this value.
    pub fn code(&self) -> (r: u64)
        ensures
            r == self.spec_code(),
    {
        match self {
            MaskGenerationFunction::Mgf1Sha1 => 1,
            MaskGenerationFunction::Mgf1Sha256 => 2,
            MaskGenerationFunction::Mgf1Sha384 => 3,
            MaskGenerationFunction::Mgf1Sha512 => 4,
            MaskGenerationFunction::Mgf1Sha224 => 5,
        }
    }

    /// Returns the value with the given numeric code, if there is one.
    pub fn from_code(code: u64) -> (r: Option<MaskGenerationFunction>)
        ensures
            r == Self::spec_from_code(code),
    {
        match code {
            1 => Some(MaskGenerationFunction::Mgf1Sha1),
            2 => Some(MaskGenerationFunction::Mgf1Sha256),
            3 => Some(MaskGenerationFunction::Mgf1Sha384),
            4 => Some(MaskGenerationFunction::Mgf1Sha512),
            5 => Some(MaskGenerationFunction::Mgf1Sha224),
            _ => None,
        }
    }

    /// Every value reads back from its code.
    pub proof fn lemma_code_round_trip(self)
        ensures
            Self::spec_from_code(self.spec_code()) == Some(self),
    {
    }
}

/// Notifications passed to a session callback.
#[derive(Clone, Copy, Debug, PartialEq, Eq, Structural)]
pub enum Notification {
    Surrender,
    OtpChanged,
}

impl Notification {
    /// The numeric code of this value.
    pub open spec fn spec_code(self) -> u64 {
        match self {
            Notification::Surrender => 0,
            Notification::OtpChanged => 1,
        }
    }

    /// The value with the given numeric code, if there is one.
    pub open spec fn spec_from_code(code: u64) -> Option<Notification> {
        match code {
            0 => Some(Notification::Surrender),
            1 => Some(Notification::OtpChanged),
            _ => None,
        }
    }

    /// Returns the numeric code of this value.
    pub fn code(&self) -> (r: u64)
        ensures
            r == self.spec_code(),
    {
        match self {
            Notification::Surrender => 0,
            Notification::OtpChanged => 1,
        }
    }

    /// Returns the value with the given numeric code, if there is one.
    pub fn from_code(code: u64) -> (r: Option<Notification>)
        ensures
            r == Self::spec_from_code(code),
    {
        match code {
            0 => Some(Notification::Surrender),
            1 => Some(Notification::OtpChanged),
            _ => None,
        }
    }

    /// Every value reads back from its code.
    pub proof fn lemma_code_round_trip(self)
        ensures
            Self::spec_from_code(self.spec_code()) == Some(self),
    {
    }
}

/// Pseudo-random functions of PKCS #5 PBKDF2.
#[derive(Clone, Copy, Debug, PartialEq, Eq, Structural)]
pub enum PseudoRandomFunction {
    Pkcs5Pbkd2HmacSha1,
    Pkcs5Pbkd2HmacGostr3411,
    Pkcs5Pbkd2HmacSha224,
    Pkcs5Pbkd2HmacSha256,
    Pkcs5Pbkd2HmacSha384,
    Pkcs5Pbkd2HmacSha512,
    Pkcs5Pbkd2HmacSha512224,
    Pkcs5Pbkd2HmacSha512256,
}

impl PseudoRandomFunction {
    /// The numeric code of this value.
    pub open spec fn spec_code(self) -> u64 {
        match self {
            PseudoRandomFunction::Pkcs5Pbkd2HmacSha1 => 1,
            PseudoRandomFunction::Pkcs5Pbkd2HmacGostr3411 => 2,
            PseudoRandomFunction::Pkcs5Pbkd2HmacSha224 => 3,
            PseudoRandomFunction::Pkcs5Pbkd2HmacSha256 => 4,
            PseudoRandomFunction::Pkcs5Pbkd2HmacSha384 => 5,
            PseudoRandomFunction::Pkcs5Pbkd2HmacSha512 => 6,
            PseudoRandomFunction::Pkcs5Pbkd2HmacSha512224 => 7,
            PseudoRandomFunction::Pkcs5Pbkd2HmacSha512256 => 8,
        }
    }

    /// The value with the given numeric code, if there is one.
    pub open spec fn spec_from_code(code: u64) -> Option<PseudoRandomFunction> {
        match code {
            1 => Some(PseudoRandomFunction::Pkcs5Pbkd2HmacSha1),
            2 => Some(PseudoRandomFunction::Pkcs5Pbkd2HmacGostr3411),
            3 => Some(PseudoRandomFunction::Pkcs5Pbkd2HmacSha224),
            4 => Some(PseudoRandomFunction::Pkcs5Pbkd2HmacSha256),
            5 => Some(PseudoRandomFunction::Pkcs5Pbkd2HmacSha384),
            6 => Some(PseudoRandomFunction::Pkcs5Pbkd2HmacSha512),
            7 => Some(PseudoRandomFunction::Pkcs5Pbkd2HmacSha512224),
            8 => Some(PseudoRandomFunction::Pkcs5Pbkd2HmacSha512256),
            _ => None,
        }
    }

    /// Returns the numeric code of this value.
    pub fn code(&self) -> (r: u64)
        ensures
            r == self.spec_code(),
    {
        match self {
            PseudoRandomFunction::Pkcs5Pbkd2HmacSha1 => 1,
            PseudoRandomFunction::Pkcs5Pbkd2HmacGostr3411 => 2,
            PseudoRandomFunction::Pkcs5Pbkd2HmacSha224 => 3,
            PseudoRandomFunction::Pkcs5Pbkd2HmacSha256 => 4,
            PseudoRandomFunction::Pkcs5Pbkd2HmacSha384 => 5,
            PseudoRandomFunction::Pkcs5Pbkd2HmacSha512 => 6,
            PseudoRandomFunction::Pkcs5Pbkd2HmacSha512224 => 7,
            PseudoRandomFunction::Pkcs5Pbkd2HmacSha512256 => 8,
        }
    }

    /// Returns the value with the given numeric code, if there is one.
    pub fn from_code(code: u64) -> (r: Option<PseudoRandomFunction>)
        ensures
            r == Self::spec_from_code(code),
    {
        match code {
            1 => Some(PseudoRandomFunction::Pkcs5Pbkd2HmacSha1),
            2 => Some(PseudoRandomFunction::Pkcs5Pbkd2HmacGostr3411),
            3 => Some(PseudoRandomFunction::Pkcs5Pbkd2HmacSha224),
            4 => Some(PseudoRandomFunction::Pkcs5Pbkd2HmacSha256),
            5 => Some(PseudoRandomFunction::Pkcs5Pbkd2HmacSha384),
            6 => Some(PseudoRandomFunction::Pkcs5Pbkd2HmacSha512),
            7 => Some(PseudoRandomFunction::Pkcs5Pbkd2HmacSha512224),
            8 => Some(PseudoRandomFunction::Pkcs5Pbkd2HmacSha512256),
            _ => None,
        }
    }

    /// Every value reads back from its code.
    pub proof fn lemma_code_round_trip(self)
        ensures
            Self::spec_from_code(self.spec_code()) == Some(self),
    {
    }
}

/// Security domains of certificates.
#[derive(Clone, Copy, Debug, PartialEq, Eq, Structural)]
pub enum SecurityDomain {
    Unspecified,
    Manufacturer,
    Operator,
    ThirdParty,
}

impl SecurityDomain {
    /// The numeric code of this value.
    pub open spec fn spec_code(self) -> u64 {
        match self {
            SecurityDomain::Unspecified => 0,
            SecurityDomain::Manufacturer => 1,
            SecurityDomain::Operator => 2,
            SecurityDomain::ThirdParty => 3,
        }
    }

    /// The value with the given numeric code, if there is one.
    pub open spec fn spec_from_code(code: u64) -> Option<SecurityDomain> {
        match code {
            0 => Some(SecurityDomain::Unspecified),
            1 => Some(SecurityDomain::Manufacturer),
            2 => Some(SecurityDomain::Operator),
            3 => Some(SecurityDomain::ThirdParty),
            _ => None,
        }
    }

    /// Returns the numeric code of this value.
    pub fn code(&self) -> (r: u64)
        ensures
            r == self.spec_code(),
    {
        match self {
            SecurityDomain::Unspecified => 0,
            SecurityDomain::Manufacturer => 1,
            SecurityDomain::Operator => 2,
            SecurityDomain::ThirdParty => 3,
        }
    }

    /// Returns the value with the given numeric code, if there is one.
    pub fn from_code(code: u64) -> (r: Option<SecurityDomain>)
        ensures
            r == Self::spec_from_code(code),
    {
        match code {
            0 => Some(SecurityDomain::Unspecified),
            1 => Some(SecurityDomain::Manufacturer),
            2 => Some(SecurityDomain::Operator),
            3 => Some(SecurityDomain::ThirdParty),
            _ => None,
        }
    }

    /// Every value reads back from its code.
    pub proof fn lemma_code_round_trip(self)
        ensures
            Self::spec_from_code(self.spec_code()) == Some(self),
    {
    }
}

/// Session states.
#[derive(Clone, Copy, Debug, PartialEq, Eq, Structural)]
pub enum SessionState {
    RoPublicSession,
    RoUserFunctions,
    RwPublicSession,
    RwUserFunctions,
    RwSoFunctions,
}

impl SessionState {
    /// The numeric code of this value.
    pub open spec fn spec_code(self) -> u64 {
        match self {
            SessionState::RoPublicSession => 0,
            SessionState::RoUserFunctions => 1,
            SessionState::RwPublicSession => 2,
            SessionState::RwUserFunctions => 3,
            SessionState::RwSoFunctions => 4,
        }
    }

    /// The value with the given numeric code, if there is one.
    pub open spec fn spec_from_code(code: u64) -> Option<SessionState> {
        match code {
            0 => Some(SessionState::RoPublicSession),
            1 => Some(SessionState::RoUserFunctions),
            2 => Some(SessionState::RwPublicSession),
            3 => Some(SessionState::RwUserFunctions),
            4 => Some(SessionState::RwSoFunctions),
            _ => None,
        }
    }

    /// Returns the numeric code of this value.
    pub fn code(&self) -> (r: u64)
        ensures
            r == self.spec_code(),
    {
        match self {
            SessionState::RoPublicSession => 0,
            SessionState::RoUserFunctions => 1,
            SessionState::RwPublicSession => 2,
            SessionState::RwUserFunctions => 3,
            SessionState::RwSoFunctions => 4,
        }
    }

    /// Returns the value with the given numeric code, if there is one.
    pub fn from_code(code: u64) -> (r: Option<SessionState>)
        ensures
            r == Self::spec_from_code(code),
    {
        match code {
            0 => Some(SessionState::RoPublicSession),
            1 => Some(SessionState::RoUserFunctions),
            2 => Some(SessionState::RwPublicSession),
            3 => Some(SessionState::RwUserFunctions),
            4 => Some(SessionState::RwSoFunctions),
            _ => None,
        }
    }

    /// Every value reads back from its code.
    pub proof fn lemma_code_round_trip(self)
        ensures
            Self::spec_from_code(self.spec_code()) == Some(self),
    {
    }
}

/// User types of a login.
#[derive(Clone, Copy, Debug, PartialEq, Eq, Structural)]
pub enum UserType {
    So,
    User,
    ContextSpecific,
}

impl UserType {
    /// The numeric code of this value.
    pub open spec fn spec_code(self) -> u64 {
        match self {
            UserType::So => 0,
            UserType::User => 1,
            UserType::ContextSpecific => 2,
        }
    }

    /// The value with the given numeric code, if there is one.
    pub open spec fn spec_from_code(code: u64) -> Option<UserType> {
        match code {
            0 => Some(UserType::So),
            1 => Some(UserType::User),
            2 => Some(UserType::ContextSpecific),
            _ => None,
        }
    }

    /// Returns the numeric code of this value.
    pub fn code(&self) -> (r: u64)
        ensures
            r == self.spec_code(),
    {
        match self {
            UserType::So => 0,
            UserType::User => 1,
            UserType::ContextSpecific => 2,
        }
    }

    /// Returns the value with the given numeric code, if there is one.
    pub fn from_code(code: u64) -> (r: Option<UserType>)
        ensures
            r == Self::spec_from_code(code),
    {
        match code {
            0 => Some(UserType::So),
            1 => Some(UserType::User),
            2 => Some(UserType::ContextSpecific),
            _ => None,
        }
    }

    /// Every value reads back from its code.
    pub proof fn lemma_code_round_trip(self)
        ensures
            Self::spec_from_code(self.spec_code()) == Some(self),
    {
    }
}

/// Output formats of one-time passwords.
#[derive(Clone, Copy, Debug, PartialEq, Eq, Structural)]
pub enum Format {
    Decimal,
    Hexadecimal,
    Alphanumeric,
    Binary,
}

impl Format {
    /// The numeric code of this value.
    pub open spec fn spec_code(self) -> u64 {
        match self {
            Format::Decimal => 0,
            Format::Hexadecimal => 1,
            Format::Alphanumeric => 2,
            Format::Binary => 3,
        }
    }

    /// The value with the given numeric code, if there is one.
    pub open spec fn spec_from_code(code: u64) -> Option<Format> {
        match code {
            0 => Some(Format::Decimal),
            1 => Some(Format::Hexadecimal),
            2 => Some(Format::Alphanumeric),
            3 => Some(Format::Binary),
            _ => None,
        }
    }

    /// Returns the numeric code of this value.
    pub fn code(&self) -> (r: u64)
        ensures
            r == self.spec_code(),
    {
        match self {
            Format::Decimal => 0,
            Format::Hexadecimal => 1,
            Format::Alphanumeric => 2,
            Format::Binary => 3,
        }
    }

    /// Returns the value with the given numeric code, if there is one.
    pub fn from_code(code: u64) -> (r: Option<Format>)
        ensures
            r == Self::spec_from_code(code),
    {
        match code {
            0 => Some(Format::Decimal),
            1 => Some(Format::Hexadecimal),
            2 => Some(Format::Alphanumeric),
            3 => Some(Format::Binary),
            _ => None,
        }
    }

    /// Every value reads back from its code.
    pub proof fn lemma_code_round_trip(self)
        ensures
            Self::spec_from_code(self.spec_code()) == Some(self),
    {
    }
}

/// Whether a one-time password parameter is ignored, optional or mandatory.
#[derive(Clone, Copy, Debug, PartialEq, Eq, Structural)]
pub enum Param {
    Ignored,
    Optional,
    Mandatory,
}

impl Param {
    /// The numeric code of this value.
    pub open spec fn spec_code(self) -> u64 {
        match self {
            Param::Ignored => 0,
            Param::Optional => 1,
            Param::Mandatory => 2,
        }
    }

    /// The value with the given numeric code, if there is one.
    pub open spec fn spec_from_code(code: u64) -> Option<Param> {
        match code {
            0 => Some(Param::Ignored),
            1 => Some(Param::Optional),
            2 => Some(Param::Mandatory),
            _ => None,
        }
    }

    /// Returns the numeric code of this value.
    pub fn code(&self) -> (r: u64)
        ensures
            r == self.spec_code(),
    {
        match self {
            Param::Ignored => 0,
            Param::Optional => 1,
            Param::Mandatory => 2,
        }
    }

    /// Returns the value with the given numeric code, if there is one.
    pub fn from_code(code: u64) -> (r: Option<Param>)
        ensures
            r == Self::spec_from_code(code),
    {
        match code {
            0 => Some(Param::Ignored),
            1 => Some(Param::Optional),
            2 => Some(Param::Mandatory),
            _ => None,
        }
    }

    /// Every value reads back from its code.
    pub proof fn lemma_code_round_trip(self)
        ensures
            Self::spec_from_code(self.spec_code()) == Some(self),
    {
    }
}

} // verus!
