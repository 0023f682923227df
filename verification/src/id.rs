//! Sandbox identifiers and the block of four addresses that each one owns.

use crate::text::{
    concat2, concat3, decimal, decimal_string, dotted_quad, is_dotted_quad,
    lemma_decimal_digits, lemma_decimal_injective, lemma_split_at_dot,
};
use rand::Rng;
use std::fmt::Debug;
use vstd::prelude::*;

verus! {

/// The largest index an allocated address block may have.
pub const MAX_NETWORK_START_BLOCK: u64 = 15299;

/// How many blocks share one third octet: 60 blocks of 4 addresses use 240
/// of the 256 values of the last octet.
pub const GROUPS_IN_LAST_BLOCK: u64 = 60;

/// The largest first address a block can have in its last octet.
pub const LAST_STARTING_IP: u64 = 237;

/// How many characters a generated identifier has.
pub const ID_LENGTH: usize = 9;

/// The role of each of the first three addresses of a block.
#[derive(Clone, Copy, Debug)]
pub enum IpAddressType {
    Veth,
    Vpeer,
    Microvm,
}

impl IpAddressType {
    /// The offset of this role's address inside a block.
    pub open spec fn spec_offset(self) -> u64 {
        match self {
            IpAddressType::Veth => 0,
            IpAddressType::Vpeer => 1,
            IpAddressType::Microvm => 2,
        }
    }

    /// The offset of this role's address inside a block.
    #[verifier::when_used_as_spec(spec_offset)]
    pub fn offset(self) -> (k: u64)
        ensures
            k == self.spec_offset(),
            k <= 2,
    {
        match self {
            IpAddressType::Veth => 0,
            IpAddressType::Vpeer => 1,
            IpAddressType::Microvm => 2,
        }
    }
}

/// Four consecutive addresses inside `10.200.0.0/16`.
///
/// The first belongs to the host end of the veth pair, the second to the
/// peer inside the namespace, the third is the address under which the guest
/// is reached, and the fourth is kept free.
#[derive(Clone, Copy, Debug)]
pub struct AddressBlock {
    block3: u64,
    starting_ip: u64,
}

impl AddressBlock {
    #[verifier::type_invariant]
    spec fn inv(self) -> bool {
        self.starting_ip <= LAST_STARTING_IP && self.starting_ip % 4 == 1
    }

    /// The block with the given index.
    pub closed spec fn of_index(index: u64) -> AddressBlock {
        AddressBlock {
            block3: index / GROUPS_IN_LAST_BLOCK,
            starting_ip: ((index % GROUPS_IN_LAST_BLOCK) * 4 + 1) as u64,
        }
    }

    /// The third octet of every address of the block.
    pub closed spec fn spec_block3(self) -> nat {
        self.block3 as nat
    }

    /// The last octet of the block's first address.
    pub closed spec fn spec_starting_ip(&self) -> u64 {
        self.starting_ip
    }

    /// The index the block was made from.
    pub open spec fn spec_index(self) -> nat {
        (self.spec_block3() * 60 + (self.spec_starting_ip() - 1) / 4) as nat
    }

    /// The first three octets of every address of the block.
    pub open spec fn spec_base_address(self) -> Seq<char> {
        "10.200."@ + decimal(self.spec_block3())
    }

    /// The `k`-th address of the block.
    pub open spec fn spec_ip(self, k: nat) -> Seq<char> {
        self.spec_base_address() + "."@ + decimal(self.spec_starting_ip() as nat + k)
    }

    /// What the two parts of a block are, given its index.
    pub proof fn lemma_of_index(index: u64)
        ensures
            Self::of_index(index).spec_block3() == index as nat / 60,
            Self::of_index(index).spec_starting_ip() == (index as nat % 60) * 4 + 1,
            Self::of_index(index).spec_starting_ip() <= LAST_STARTING_IP,
            Self::of_index(index).spec_index() == index,
    {
    }

    /// The first three octets of every address of the block.
    pub fn base_address(&self) -> (s: String)
        ensures
            s@ == self.spec_base_address(),
    {
        let third = decimal_string(self.block3);
        concat2("10.200.", third.as_str())
    }

    /// The last octet of the block's first address.
    #[verifier::when_used_as_spec(spec_starting_ip)]
    pub fn starting_ip(&self) -> (n: u64)
        ensures
            n == self.spec_starting_ip(),
            n <= LAST_STARTING_IP,
            n % 4 == 1,
    {
        proof {
            use_type_invariant(self);
        }
        self.starting_ip
    }

    /// The address at offset `index` from the first one of the block.
    pub fn get_ip(&self, index: u64) -> (s: String)
        requires
            index + LAST_STARTING_IP <= u64::MAX,
        ensures
            s@ == self.spec_ip(index as nat),
    {
        proof {
            use_type_invariant(self);
        }
        let base = self.base_address();
        let last = decimal_string(self.starting_ip + index);
        concat3(base.as_str(), ".", last.as_str())
    }
}

impl From<u64> for AddressBlock {
    fn from(value: u64) -> (block: AddressBlock) {
        let block3 = value / GROUPS_IN_LAST_BLOCK;
        let block4 = (value % GROUPS_IN_LAST_BLOCK) * 4 + 1;
        AddressBlock { block3, starting_ip: block4 }
    }
}

impl vstd::std_specs::convert::FromSpecImpl<u64> for AddressBlock {
    open spec fn obeys_from_spec() -> bool {
        true
    }

    open spec fn from_spec(value: u64) -> AddressBlock {
        AddressBlock::of_index(value)
    }
}

/// Two texts behind the same prefix are equal only if they are the same text.
proof fn lemma_same_prefix(p: Seq<char>, x: Seq<char>, y: Seq<char>)
    requires
        p + x == p + y,
    ensures
        x == y,
{
    assert((p + x).len() == p.len() + x.len());
    assert((p + y).len() == p.len() + y.len());
    assert(x.len() == y.len());
    assert(x =~= y) by {
        assert forall|i: int| 0 <= i < x.len() implies x[i] == y[i] by {
            assert((p + x)[p.len() + i] == x[i]);
            assert((p + y)[p.len() + i] == y[i]);
        }
    }
}

/// Two addresses of the shape this module writes are the same text only if
/// their third and fourth octets agree.
proof fn lemma_ip_injective(a3: nat, a4: nat, b3: nat, b4: nat)
    requires
        "10.200."@ + decimal(a3) + "."@ + decimal(a4) == "10.200."@ + decimal(b3) + "."@ + decimal(
            b4,
        ),
    ensures
        a3 == b3,
        a4 == b4,
{
    reveal_strlit(".");
    assert("."@ =~= seq!['.']);
    let p = "10.200."@;
    let x = decimal(a3) + seq!['.'] + decimal(a4);
    let y = decimal(b3) + seq!['.'] + decimal(b4);
    assert(p + decimal(a3) + "."@ + decimal(a4) =~= p + x);
    assert(p + decimal(b3) + "."@ + decimal(b4) =~= p + y);
    lemma_same_prefix(p, x, y);
    lemma_decimal_digits(a3);
    lemma_decimal_digits(b3);
    lemma_split_at_dot(decimal(a3), decimal(a4), decimal(b3), decimal(b4));
    lemma_decimal_injective(a3, b3);
    lemma_decimal_injective(a4, b4);
}

/// Every address of every block up to the largest index is a well-formed
/// dotted quad.
pub proof fn lemma_ip_is_dotted_quad(index: u64, k: nat)
    requires
        index <= MAX_NETWORK_START_BLOCK,
        k <= 3,
    ensures
        is_dotted_quad(AddressBlock::of_index(index).spec_ip(k)),
{
    let block = AddressBlock::of_index(index);
    let c = block.spec_block3();
    let d = block.spec_starting_ip() as nat + k;
    reveal_strlit("10.200.");
    reveal_strlit(".");
    reveal_with_fuel(decimal, 4);
    assert("10.200."@ =~= decimal(10) + seq!['.'] + decimal(200) + seq!['.']);
    assert("."@ =~= seq!['.']);
    assert(block.spec_ip(k) =~= dotted_quad(10, 200, c, d));
    assert(c < 256 && d < 256);
}

/// The addresses of two different blocks are all different.
pub proof fn lemma_blocks_disjoint(a: u64, b: u64, j: nat, k: nat)
    requires
        a != b,
        j <= 3,
        k <= 3,
    ensures
        AddressBlock::of_index(a).spec_ip(j) != AddressBlock::of_index(b).spec_ip(k),
{
    let x = AddressBlock::of_index(a);
    let y = AddressBlock::of_index(b);
    if x.spec_ip(j) == y.spec_ip(k) {
        lemma_ip_injective(
            x.spec_block3(),
            x.spec_starting_ip() as nat + j,
            y.spec_block3(),
            y.spec_starting_ip() as nat + k,
        );
        assert(a / 60 == b / 60);
        assert((a % 60) * 4 + j == (b % 60) * 4 + k);
        assert(a % 60 == b % 60);
        assert(false);
    }
}

/// Two neighbouring blocks with the same third octet have the same base
/// address, and their first addresses lie four apart.
pub proof fn lemma_neighbours_share_base(index: u64)
    requires
        index < u64::MAX,
        index / GROUPS_IN_LAST_BLOCK == (index + 1) as u64 / GROUPS_IN_LAST_BLOCK,
    ensures
        AddressBlock::of_index(index).spec_base_address() == AddressBlock::of_index(
            (index + 1) as u64,
        ).spec_base_address(),
        AddressBlock::of_index((index + 1) as u64).spec_starting_ip() - AddressBlock::of_index(
            index,
        ).spec_starting_ip() == 4,
{
}

/// After the last block of a third octet the base address changes and the
/// first address starts over at 1.
pub proof fn lemma_row_wraps(index: u64)
    requires
        index < u64::MAX,
        index % GROUPS_IN_LAST_BLOCK == GROUPS_IN_LAST_BLOCK - 1,
    ensures
        AddressBlock::of_index(index).spec_base_address() != AddressBlock::of_index(
            (index + 1) as u64,
        ).spec_base_address(),
        AddressBlock::of_index((index + 1) as u64).spec_starting_ip() == 1,
{
    let x = AddressBlock::of_index(index);
    let y = AddressBlock::of_index((index + 1) as u64);
    assert(y.spec_block3() == x.spec_block3() + 1);
    if x.spec_base_address() == y.spec_base_address() {
        lemma_same_prefix("10.200."@, decimal(x.spec_block3()), decimal(y.spec_block3()));
        lemma_decimal_injective(x.spec_block3(), y.spec_block3());
    }
}

/// Whether `c` is a digit or an unaccented letter.
pub open spec fn is_alphanumeric(c: char) -> bool {
    ('0' <= c && c <= '9') || ('a' <= c && c <= 'z') || ('A' <= c && c <= 'Z')
}

/// Whether `id` has the shape of a generated identifier: nine digits or
/// letters, so that it can name a directory and a terminal session.
pub open spec fn is_generated_id(id: Seq<char>) -> bool {
    id.len() == ID_LENGTH && forall|i: int| 0 <= i < id.len() ==> is_alphanumeric(#[trigger] id[i])
}

/// A generated identifier can name a directory and a terminal session: it
/// is not empty and holds no `/`, `.`, `:` or blank.
pub proof fn lemma_generated_id_is_plain(id: Seq<char>)
    requires
        is_generated_id(id),
    ensures
        id.len() > 0,
        forall|i: int|
            0 <= i < id.len() ==> (#[trigger] id[i]) != '/' && id[i] != '.' && id[i] != ':'
                && id[i] != ' ',
{
    assert forall|i: int| 0 <= i < id.len() implies (#[trigger] id[i]) != '/' && id[i] != '.'
        && id[i] != ':' && id[i] != ' ' by {
        assert(is_alphanumeric(id[i]));
    }
}

/// The characters an identifier is drawn from.
pub open spec fn spec_alphabet() -> Seq<char> {
    seq![
        '0', '1', '2', '3', '4', '5', '6', '7', '8', '9', 'a', 'b', 'c', 'd', 'e', 'f', 'g', 'h',
        'i', 'j', 'k', 'l', 'm', 'n', 'o', 'p', 'q', 'r', 's', 't', 'u', 'v', 'w', 'x', 'y', 'z',
        'A', 'B', 'C', 'D', 'E', 'F', 'G', 'H', 'I', 'J', 'K', 'L', 'M', 'N', 'O', 'P', 'Q', 'R',
        'S', 'T', 'U', 'V', 'W', 'X', 'Y', 'Z',
    ]
}

/// The characters an identifier is drawn from.
pub fn alphabet() -> (a: Vec<char>)
    ensures
        a@ == spec_alphabet(),
{
    let a = vec![
        '0', '1', '2', '3', '4', '5', '6', '7', '8', '9', 'a', 'b', 'c', 'd', 'e', 'f', 'g', 'h',
        'i', 'j', 'k', 'l', 'm', 'n', 'o', 'p', 'q', 'r', 's', 't', 'u', 'v', 'w', 'x', 'y', 'z',
        'A', 'B', 'C', 'D', 'E', 'F', 'G', 'H', 'I', 'J', 'K', 'L', 'M', 'N', 'O', 'P', 'Q', 'R',
        'S', 'T', 'U', 'V', 'W', 'X', 'Y', 'Z',
    ];
    assert(a@ =~= spec_alphabet());
    a
}

/// Every character of the alphabet is a digit or an unaccented letter.
proof fn lemma_alphabet_alphanumeric()
    ensures
        spec_alphabet().len() == 62,
        forall|i: int|
            0 <= i < spec_alphabet().len() ==> is_alphanumeric(#[trigger] spec_alphabet()[i]),
{
}

/// `nanoid::format` with the `nanoid::rngs::default` random source: a text
/// of `size` characters, each taken from `alphabet`. The call draws random
/// bytes until it has enough characters, so nothing is claimed about which
/// characters come out. The alphabet must be non-empty, hold at most 255
/// one-byte characters, and `size` must be positive: otherwise the call
/// panics or never returns.
#[verifier::external_body]
fn nanoid_format(alphabet: &Vec<char>, size: usize) -> (id: String)
    requires
        0 < size,
        8 * size <= usize::MAX,
        0 < alphabet@.len() <= 255,
        forall|i: int| 0 <= i < alphabet@.len() ==> (#[trigger] alphabet@[i] as u32) < 128,
    ensures
        id@.len() == size,
        forall|i: int| 0 <= i < id@.len() ==> alphabet@.contains(#[trigger] id@[i]),
{
    nanoid::format(nanoid::rngs::default, alphabet.as_slice(), size)
}

/// `rand::Rng::gen_range` on the thread-local generator, over the inclusive
/// range from `low` to `high`: some value inside the range. The range must
/// not be empty, or the call panics.
#[verifier::external_body]
fn random_in_range(low: u64, high: u64) -> (r: u64)
    requires
        low <= high,
    ensures
        low <= r <= high,
{
    rand::thread_rng().gen_range(low..=high)
}

/// What names a sandbox: a short text and the index of its address block.
#[derive(Debug)]
pub struct VmIdentifier {
    id: String,
    address_block: AddressBlock,
}

impl VmIdentifier {
    /// The text of the identifier.
    pub closed spec fn spec_id(&self) -> Seq<char> {
        self.id@
    }

    /// The address block of the identifier.
    pub closed spec fn spec_address_block(&self) -> AddressBlock {
        self.address_block
    }

    /// The identifier with the given text and the block of the given index.
    pub fn new(id: String, address_block: u64) -> (r: VmIdentifier)
        ensures
            r.spec_id() == id@,
            r.spec_address_block() == AddressBlock::of_index(address_block),
    {
        Self { id, address_block: AddressBlock::from(address_block) }
    }

    /// The text of the identifier.
    pub fn id(&self) -> (s: &str)
        ensures
            s@ == self.spec_id(),
    {
        self.id.as_str()
    }

    /// The address block of the identifier.
    pub fn address_block(&self) -> (b: &AddressBlock)
        ensures
            *b == self.spec_address_block(),
    {
        &self.address_block
    }
}

impl Default for VmIdentifier {
    /// A fresh identifier: nine random digits and letters, and a random
    /// block index up to the largest one.
    fn default() -> (r: VmIdentifier)
        ensures
            is_generated_id(r.spec_id()),
            r.spec_address_block().spec_index() <= MAX_NETWORK_START_BLOCK,
    {
        let letters = alphabet();
        proof {
            lemma_alphabet_alphanumeric();
        }
        let id = nanoid_format(&letters, ID_LENGTH);
        let address_block = random_in_range(0, MAX_NETWORK_START_BLOCK);
        proof {
            AddressBlock::lemma_of_index(address_block);
            assert forall|i: int| 0 <= i < id@.len() implies is_alphanumeric(#[trigger] id@[i]) by {
                let c = id@[i];
                assert(letters@.contains(c));
                let j = choose|j: int| 0 <= j < letters@.len() && letters@[j] == c;
                assert(is_alphanumeric(spec_alphabet()[j]));
            }
        }
        Self::new(id, address_block)
    }
}

/// A source of identifiers for new sandboxes.
pub trait ProvideIdentifier: Debug + Send + Sync {
    /// The identifier of the next sandbox. Its address block is one of
    /// those up to the largest index.
    fn provide_identifier(&self) -> (id: VmIdentifier)
        ensures
            id.spec_address_block().spec_index() <= MAX_NETWORK_START_BLOCK,
    ;
}

/// The source of random identifiers.
#[derive(Debug, Default)]
pub struct VmIdentifierFactory;

impl ProvideIdentifier for VmIdentifierFactory {
    /// A fresh random identifier.
    fn provide_identifier(&self) -> (id: VmIdentifier)
        ensures
            is_generated_id(id.spec_id()),
    {
        VmIdentifier::default()
    }
}

} // verus!
