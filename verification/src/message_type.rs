//! The type codes that tag every message exchanged with a device, and the
//! trait that ties a message to its code.

use vstd::prelude::*;

verus! {

/// The kind of a protocol message, as carried in the frame header next to
/// the encoded payload.
#[derive(Clone, Copy, Debug, PartialEq, Eq, Structural)]
pub enum MessageType {
    Success,
    Failure,
    PinMatrixRequest,
    PinMatrixAck,
    ButtonRequest,
    ButtonAck,
    PassphraseRequest,
    PassphraseAck,
    Initialize,
    Ping,
    ChangePin,
    WipeDevice,
    GetEntropy,
    Entropy,
    LoadDevice,
    ResetDevice,
    Features,
    Cancel,
    ApplySettings,
    ApplyFlags,
    BackupDevice,
    EntropyRequest,
    EntropyAck,
    RecoveryDevice,
    WordRequest,
    WordAck,
    GetFeatures,
    FirmwareErase,
    FirmwareUpload,
    FirmwareRequest,
    SelfTest,
    GetPublicKey,
    PublicKey,
    SignTx,
    TxRequest,
    TxAck,
    GetAddress,
    Address,
    SignMessage,
    VerifyMessage,
    MessageSignature,
    EthereumGetAddress,
    EthereumAddress,
    EthereumSignTx,
    EthereumSignTxEip1559,
    EthereumTxRequest,
    EthereumTxAck,
    EthereumSignMessage,
    EthereumVerifyMessage,
    EthereumMessageSignature,
    EthereumSignTypedData,
    EthereumTypedDataStructRequest,
    EthereumTypedDataStructAck,
    EthereumTypedDataValueRequest,
    EthereumTypedDataValueAck,
    EthereumTypedDataSignature,
    TezosGetAddress,
    TezosAddress,
    TezosSignTx,
    TezosSignedTx,
    TezosGetPublicKey,
    TezosPublicKey,
    StellarSignTx,
    StellarTxOpRequest,
    StellarGetAddress,
    StellarAddress,
    StellarCreateAccountOp,
    StellarPaymentOp,
    StellarSetOptionsOp,
    StellarChangeTrustOp,
    StellarAllowTrustOp,
    StellarAccountMergeOp,
    StellarManageDataOp,
    StellarBumpSequenceOp,
    StellarSignedTx,
    CardanoSignTxInit,
    CardanoTxInput,
    CardanoGetPublicKey,
    CardanoPublicKey,
    CardanoGetAddress,
    CardanoAddress,
    CardanoToken,
    RippleGetAddress,
    RippleAddress,
    RippleSignTx,
    RippleSignedTx,
    MoneroTransactionInitRequest,
    MoneroTransactionInitAck,
    MoneroTransactionSetInputRequest,
    MoneroTransactionSetInputAck,
    MoneroTransactionInputViniRequest,
    MoneroTransactionInputViniAck,
    MoneroTransactionAllInputsSetRequest,
    MoneroTransactionAllInputsSetAck,
    MoneroTransactionSetOutputRequest,
    MoneroTransactionSetOutputAck,
    MoneroTransactionAllOutSetRequest,
    MoneroTransactionAllOutSetAck,
    MoneroTransactionSignInputRequest,
    MoneroTransactionSignInputAck,
    MoneroTransactionFinalRequest,
    MoneroTransactionFinalAck,
    MoneroKeyImageExportInitRequest,
    MoneroKeyImageExportInitAck,
    MoneroKeyImageSyncStepRequest,
    MoneroKeyImageSyncStepAck,
    MoneroKeyImageSyncFinalRequest,
    MoneroKeyImageSyncFinalAck,
    MoneroGetAddress,
    MoneroAddress,
    MoneroGetWatchKey,
    MoneroWatchKey,
    DebugMoneroDiagRequest,
    DebugMoneroDiagAck,
}

/// A protocol message that knows the type code under which it travels.
pub trait TrezorMessage {
    /// The type code of this message.
    spec fn spec_message_type() -> MessageType;

    /// The type code of this message, at run time.
    fn message_type() -> (t: MessageType)
        ensures
            t == Self::spec_message_type(),
    ;
}

} // verus!
