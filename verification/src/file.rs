//! File entities and their identifiers: encrypted input and output files,
//! their crypto envelope, and the prefix-tagged external identifiers under
//! which every entity is persisted.

use vstd::prelude::*;
use vstd::string::{StrSliceExecFns, StringExecFns};
use vstd::utf8::encode_utf8;
use crate::errors::ServiceError;
use crate::trusted::fresh_uuid;
use crate::value::{Value, ValueModel};
use crate::wire::Wire;

verus! {

/// The key-space prefix for input files.
pub open spec fn input_file_prefix() -> Seq<char> {
    "input-file"@
}

/// The key-space prefix for output files.
pub open spec fn output_file_prefix() -> Seq<char> {
    "output-file"@
}

/// The key-space prefix for functions.
pub open spec fn function_prefix() -> Seq<char> {
    "function"@
}

/// The key-space prefix for tasks.
pub open spec fn task_prefix() -> Seq<char> {
    "task"@
}

/// The storage key written for an entity: its prefix, a dash, its UUID.
pub open spec fn key_string_of(prefix: Seq<char>, uuid: Seq<char>) -> Seq<char> {
    prefix + "-"@ + uuid
}

/// A key carries the given prefix.
pub open spec fn spec_starts_with(s: Seq<char>, p: Seq<char>) -> bool {
    p.len() <= s.len() && s.subrange(0, p.len() as int) == p
}

/// Keys of entities always match their own kind's prefix.
pub proof fn lemma_key_prefix_matches(prefix: Seq<char>, uuid: Seq<char>)
    ensures
        spec_starts_with(key_string_of(prefix, uuid), prefix),
{
    assert(key_string_of(prefix, uuid).subrange(0, prefix.len() as int) =~= prefix);
}

/// Builds the key string `prefix-uuid`.
pub fn make_key_string(prefix: &str, uuid: &String) -> (r: String)
    ensures
        r@ == key_string_of(prefix@, uuid@),
{
    let mut s = String::from_str(prefix);
    s.append("-");
    s.append(uuid.as_str());
    s
}

/// Whether `s` starts with `p`.
pub fn str_starts_with(s: &String, p: &str) -> (r: bool)
    ensures
        r == spec_starts_with(s@, p@),
{
    let n = p.unicode_len();
    let slen = s.as_str().unicode_len();
    if n > slen {
        return false;
    }
    let mut i: usize = 0;
    while i < n
        invariant
            0 <= i <= n,
            n == p@.len(),
            n <= s@.len(),
            forall|j: int| 0 <= j < i ==> s@[j] == p@[j],
        decreases n - i,
    {
        if s.as_str().get_char(i) != p.get_char(i) {
            proof {
                if spec_starts_with(s@, p@) {
                    assert(s@.subrange(0, p@.len() as int)[i as int] == p@[i as int]);
                }
            }
            return false;
        }
        i += 1;
    }
    proof {
        assert(s@.subrange(0, p@.len() as int) =~= p@);
    }
    true
}

/// The user-visible identifier of a persisted entity: a kind prefix plus a
/// UUID.
pub ghost struct ExternalIDModel {
    pub prefix: Seq<char>,
    pub uuid: Seq<char>,
}

/// The user-visible identifier of a persisted entity.
#[derive(Debug, Clone, PartialEq)]
pub struct ExternalID {
    pub prefix: String,
    pub uuid: String,
}

impl DeepView for ExternalID {
    type V = ExternalIDModel;

    open spec fn deep_view(&self) -> ExternalIDModel {
        ExternalIDModel { prefix: self.prefix@, uuid: self.uuid@ }
    }
}

impl ExternalID {
    /// The key under which the identified entity is stored.
    pub fn key_string(&self) -> (r: String)
        ensures
            r@ == key_string_of(self.prefix@, self.uuid@),
    {
        make_key_string(self.prefix.as_str(), &self.uuid)
    }

    /// The key as bytes.
    pub fn key_bytes(&self) -> (r: Vec<u8>)
        ensures
            r@ == encode_utf8(key_string_of(self.prefix@, self.uuid@)),
    {
        let s = self.key_string();
        s.as_str().as_bytes_vec()
    }

    /// An identical copy.
    pub fn duplicate(&self) -> (r: ExternalID)
        ensures
            r.deep_view() == self.deep_view(),
    {
        ExternalID { prefix: self.prefix.clone(), uuid: self.uuid.clone() }
    }
}

impl Wire for ExternalID {
    open spec fn wire(m: ExternalIDModel) -> ValueModel {
        ValueModel::Pair(Box::new(ValueModel::Txt(m.prefix)), Box::new(ValueModel::Txt(m.uuid)))
    }

    fn to_value(&self) -> (v: Value) {
        Value::pair(Value::Txt(self.prefix.clone()), Value::Txt(self.uuid.clone()))
    }

    fn of_value(v: Value) -> (r: Option<ExternalID>) {
        match v.into_pair() {
            Some((a, b)) => {
                match (a.into_txt(), b.into_txt()) {
                    (Some(prefix), Some(uuid)) => Some(ExternalID { prefix, uuid }),
                    _ => None,
                }
            },
            None => None,
        }
    }
}

/// The crypto envelope of a stored file: a schema name, a key, and an IV.
pub ghost struct FileCryptoModel {
    pub schema: Seq<char>,
    pub key: Seq<u8>,
    pub iv: Seq<u8>,
}

/// The crypto envelope of a stored file.
#[derive(Debug, Clone, PartialEq)]
pub struct FileCrypto {
    pub schema: String,
    pub key: Vec<u8>,
    pub iv: Vec<u8>,
}

impl DeepView for FileCrypto {
    type V = FileCryptoModel;

    open spec fn deep_view(&self) -> FileCryptoModel {
        FileCryptoModel { schema: self.schema@, key: self.key.deep_view(), iv: self.iv.deep_view() }
    }
}

/// The crypto envelope that fusion outputs are created with.
pub open spec fn default_crypto_model() -> FileCryptoModel {
    FileCryptoModel { schema: "teaclave-file-128"@, key: Seq::empty(), iv: Seq::empty() }
}

impl FileCrypto {
    /// Builds an envelope from its parts.
    pub fn new(schema: String, key: Vec<u8>, iv: Vec<u8>) -> (r: FileCrypto)
        ensures
            r.deep_view() == (FileCryptoModel {
                schema: schema@,
                key: key.deep_view(),
                iv: iv.deep_view(),
            }),
    {
        FileCrypto { schema, key, iv }
    }

    /// An identical copy.
    pub fn duplicate(&self) -> (r: FileCrypto)
        ensures
            r.deep_view() == self.deep_view(),
    {
        let r = FileCrypto {
            schema: self.schema.clone(),
            key: vstd::slice::slice_to_vec(self.key.as_slice()),
            iv: vstd::slice::slice_to_vec(self.iv.as_slice()),
        };
        r
    }
}

impl Default for FileCrypto {
    /// The default envelope used for fusion outputs.
    fn default() -> (r: FileCrypto)
        ensures
            r.deep_view() == default_crypto_model(),
    {
        let key: Vec<u8> = Vec::new();
        let iv: Vec<u8> = Vec::new();
        proof {
            assert(key.deep_view() =~= Seq::<u8>::empty());
            assert(iv.deep_view() =~= Seq::<u8>::empty());
        }
        FileCrypto { schema: String::from_str("teaclave-file-128"), key, iv }
    }
}

impl Wire for FileCrypto {
    open spec fn wire(m: FileCryptoModel) -> ValueModel {
        ValueModel::Pair(
            Box::new(ValueModel::Txt(m.schema)),
            Box::new(
                ValueModel::Pair(
                    Box::new(ValueModel::Bin(m.key)),
                    Box::new(ValueModel::Bin(m.iv)),
                ),
            ),
        )
    }

    fn to_value(&self) -> (v: Value) {
        Value::pair(
            self.schema.to_value(),
            Value::pair(self.key.to_value(), self.iv.to_value()),
        )
    }

    fn of_value(v: Value) -> (r: Option<FileCrypto>) {
        match v.into_pair() {
            Some((a, rest)) => {
                match rest.into_pair() {
                    Some((b, c)) => {
                        match (a.into_txt(), b.into_bin(), c.into_bin()) {
                            (Some(schema), Some(key), Some(iv)) => Some(
                                FileCrypto { schema, key, iv },
                            ),
                            _ => None,
                        }
                    },
                    None => None,
                }
            },
            None => None,
        }
    }
}

/// An encrypted input file: url, mandatory authentication tag, crypto
/// envelope, owners, and its UUID.
pub ghost struct InputFileModel {
    pub url: Seq<char>,
    pub cmac: Seq<u8>,
    pub crypto_info: FileCryptoModel,
    pub owner: Seq<Seq<char>>,
    pub uuid: Seq<char>,
}

/// An encrypted input file.
#[derive(Debug, Clone, PartialEq)]
pub struct TeaclaveInputFile {
    pub url: String,
    pub cmac: Vec<u8>,
    pub crypto_info: FileCrypto,
    pub owner: Vec<String>,
    pub uuid: String,
}

impl DeepView for TeaclaveInputFile {
    type V = InputFileModel;

    open spec fn deep_view(&self) -> InputFileModel {
        InputFileModel {
            url: self.url@,
            cmac: self.cmac.deep_view(),
            crypto_info: self.crypto_info.deep_view(),
            owner: self.owner.deep_view(),
            uuid: self.uuid@,
        }
    }
}

impl TeaclaveInputFile {
    /// An input file is well formed when it has at least one owner and a
    /// non-empty authentication tag.
    pub open spec fn wf(m: InputFileModel) -> bool {
        m.owner.len() >= 1 && m.cmac.len() >= 1
    }

    /// Registers a new input file under a fresh UUID.
    pub fn new(url: String, cmac: Vec<u8>, crypto_info: FileCrypto, owner: Vec<String>) -> (r:
        TeaclaveInputFile)
        ensures
            r.url@ == url@,
            r.cmac.deep_view() == cmac.deep_view(),
            r.crypto_info.deep_view() == crypto_info.deep_view(),
            r.owner.deep_view() == owner.deep_view(),
            r.uuid@.len() == 36,
    {
        TeaclaveInputFile { url, cmac, crypto_info, owner, uuid: fresh_uuid() }
    }

    /// Derives an input file from a finalized output file: same url, crypto
    /// and owners; fails exactly when the output has not been finalized.
    pub fn from_output(output: TeaclaveOutputFile) -> (r: Result<TeaclaveInputFile, ServiceError>)
        ensures
            r is Ok <==> output.cmac is Some,
            r matches Ok(f) ==> {
                &&& f.url@ == output.url@
                &&& Some(f.cmac.deep_view()) == output.cmac.deep_view()
                &&& f.crypto_info.deep_view() == output.crypto_info.deep_view()
                &&& f.owner.deep_view() == output.owner.deep_view()
                &&& f.uuid@.len() == 36
            },
            r is Err ==> r == Err::<TeaclaveInputFile, ServiceError>(ServiceError::PermissionDenied),
    {
        match output.cmac {
            Some(cmac) => Ok(
                TeaclaveInputFile {
                    url: output.url,
                    cmac,
                    crypto_info: output.crypto_info,
                    owner: output.owner,
                    uuid: fresh_uuid(),
                },
            ),
            None => Err(ServiceError::PermissionDenied),
        }
    }

    /// The external identifier of this file.
    pub fn external_id(&self) -> (r: ExternalID)
        ensures
            r.prefix@ == input_file_prefix(),
            r.uuid@ == self.uuid@,
    {
        ExternalID { prefix: String::from_str("input-file"), uuid: self.uuid.clone() }
    }

    /// The key string this file is stored under.
    pub fn key_string(&self) -> (r: String)
        ensures
            r@ == key_string_of(input_file_prefix(), self.uuid@),
    {
        make_key_string("input-file", &self.uuid)
    }

    /// Whether a key belongs to the input-file key space.
    pub fn match_prefix(key: &String) -> (r: bool)
        ensures
            r == spec_starts_with(key@, input_file_prefix()),
    {
        str_starts_with(key, "input-file")
    }
}

impl Wire for TeaclaveInputFile {
    open spec fn wire(m: InputFileModel) -> ValueModel {
        ValueModel::Pair(
            Box::new(ValueModel::Txt(m.url)),
            Box::new(
                ValueModel::Pair(
                    Box::new(ValueModel::Bin(m.cmac)),
                    Box::new(
                        ValueModel::Pair(
                            Box::new(FileCrypto::wire(m.crypto_info)),
                            Box::new(
                                ValueModel::Pair(
                                    Box::new(<Vec<String> as Wire>::wire(m.owner)),
                                    Box::new(ValueModel::Txt(m.uuid)),
                                ),
                            ),
                        ),
                    ),
                ),
            ),
        )
    }

    fn to_value(&self) -> (v: Value) {
        Value::pair(
            self.url.to_value(),
            Value::pair(
                self.cmac.to_value(),
                Value::pair(
                    self.crypto_info.to_value(),
                    Value::pair(self.owner.to_value(), self.uuid.to_value()),
                ),
            ),
        )
    }

    fn of_value(v: Value) -> (r: Option<TeaclaveInputFile>) {
        match v.into_pair() {
            Some((vurl, rest1)) => {
                match rest1.into_pair() {
                    Some((vcmac, rest2)) => {
                        match rest2.into_pair() {
                            Some((vcrypto, rest3)) => {
                                match rest3.into_pair() {
                                    Some((vowner, vuuid)) => {
                                        match (
                                            vurl.into_txt(),
                                            vcmac.into_bin(),
                                            FileCrypto::of_value(vcrypto),
                                            <Vec<String> as Wire>::of_value(vowner),
                                            vuuid.into_txt(),
                                        ) {
                                            (
                                                Some(url),
                                                Some(cmac),
                                                Some(crypto_info),
                                                Some(owner),
                                                Some(uuid),
                                            ) => Some(
                                                TeaclaveInputFile {
                                                    url,
                                                    cmac,
                                                    crypto_info,
                                                    owner,
                                                    uuid,
                                                },
                                            ),
                                            _ => None,
                                        }
                                    },
                                    None => None,
                                }
                            },
                            None => None,
                        }
                    },
                    None => None,
                }
            },
            None => None,
        }
    }
}

/// An encrypted output file: like an input file, but its authentication tag
/// appears only once the executor finalizes the file.
pub ghost struct OutputFileModel {
    pub url: Seq<char>,
    pub cmac: Option<Seq<u8>>,
    pub crypto_info: FileCryptoModel,
    pub owner: Seq<Seq<char>>,
    pub uuid: Seq<char>,
}

/// An encrypted output file.
#[derive(Debug, Clone, PartialEq)]
pub struct TeaclaveOutputFile {
    pub url: String,
    pub cmac: Option<Vec<u8>>,
    pub crypto_info: FileCrypto,
    pub owner: Vec<String>,
    pub uuid: String,
}

impl DeepView for TeaclaveOutputFile {
    type V = OutputFileModel;

    open spec fn deep_view(&self) -> OutputFileModel {
        OutputFileModel {
            url: self.url@,
            cmac: self.cmac.deep_view(),
            crypto_info: self.crypto_info.deep_view(),
            owner: self.owner.deep_view(),
            uuid: self.uuid@,
        }
    }
}

impl TeaclaveOutputFile {
    /// An output file is well formed when it has at least one owner; if it
    /// has been finalized, its tag is non-empty.
    pub open spec fn wf(m: OutputFileModel) -> bool {
        &&& m.owner.len() >= 1
        &&& (m.cmac matches Some(c) ==> c.len() >= 1)
    }

    /// Registers a new output file under a fresh UUID, not yet finalized.
    pub fn new(url: String, crypto_info: FileCrypto, owner: Vec<String>) -> (r:
        TeaclaveOutputFile)
        ensures
            r.url@ == url@,
            r.cmac is None,
            r.crypto_info.deep_view() == crypto_info.deep_view(),
            r.owner.deep_view() == owner.deep_view(),
            r.uuid@.len() == 36,
    {
        TeaclaveOutputFile { url, cmac: None, crypto_info, owner, uuid: fresh_uuid() }
    }

    /// The external identifier of this file.
    pub fn external_id(&self) -> (r: ExternalID)
        ensures
            r.prefix@ == output_file_prefix(),
            r.uuid@ == self.uuid@,
    {
        ExternalID { prefix: String::from_str("output-file"), uuid: self.uuid.clone() }
    }

    /// The key string this file is stored under.
    pub fn key_string(&self) -> (r: String)
        ensures
            r@ == key_string_of(output_file_prefix(), self.uuid@),
    {
        make_key_string("output-file", &self.uuid)
    }

    /// Whether a key belongs to the output-file key space.
    pub fn match_prefix(key: &String) -> (r: bool)
        ensures
            r == spec_starts_with(key@, output_file_prefix()),
    {
        str_starts_with(key, "output-file")
    }
}

impl Wire for TeaclaveOutputFile {
    open spec fn wire(m: OutputFileModel) -> ValueModel {
        ValueModel::Pair(
            Box::new(ValueModel::Txt(m.url)),
            Box::new(
                ValueModel::Pair(
                    Box::new(<Option<Vec<u8>> as Wire>::wire(m.cmac)),
                    Box::new(
                        ValueModel::Pair(
                            Box::new(FileCrypto::wire(m.crypto_info)),
                            Box::new(
                                ValueModel::Pair(
                                    Box::new(<Vec<String> as Wire>::wire(m.owner)),
                                    Box::new(ValueModel::Txt(m.uuid)),
                                ),
                            ),
                        ),
                    ),
                ),
            ),
        )
    }

    fn to_value(&self) -> (v: Value) {
        Value::pair(
            self.url.to_value(),
            Value::pair(
                self.cmac.to_value(),
                Value::pair(
                    self.crypto_info.to_value(),
                    Value::pair(self.owner.to_value(), self.uuid.to_value()),
                ),
            ),
        )
    }

    fn of_value(v: Value) -> (r: Option<TeaclaveOutputFile>) {
        match v.into_pair() {
            Some((vurl, rest1)) => {
                match rest1.into_pair() {
                    Some((vcmac, rest2)) => {
                        match rest2.into_pair() {
                            Some((vcrypto, rest3)) => {
                                match rest3.into_pair() {
                                    Some((vowner, vuuid)) => {
                                        match (
                                            vurl.into_txt(),
                                            <Option<Vec<u8>> as Wire>::of_value(vcmac),
                                            FileCrypto::of_value(vcrypto),
                                            <Vec<String> as Wire>::of_value(vowner),
                                            vuuid.into_txt(),
                                        ) {
                                            (
                                                Some(url),
                                                Some(cmac),
                                                Some(crypto_info),
                                                Some(owner),
                                                Some(uuid),
                                            ) => Some(
                                                TeaclaveOutputFile {
                                                    url,
                                                    cmac,
                                                    crypto_info,
                                                    owner,
                                                    uuid,
                                                },
                                            ),
                                            _ => None,
                                        }
                                    },
                                    None => None,
                                }
                            },
                            None => None,
                        }
                    },
                    None => None,
                }
            },
            None => None,
        }
    }
}

} // verus!
