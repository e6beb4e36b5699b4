//! What holds of the library as a whole, proved from the contracts of its
//! functions.

use crate::db::{
    expired_link_ids_spec, file_with_id, files_without, has_file, has_link_to, is_referenced,
    link_ids_distinct, links_without, live_links, orphaned_by_sweep, orphaned_file_ids_spec,
    referenced_files, resolve_grant_spec, resolving_link, retired_by_sweep, survives_sweep,
    SavedShare,
};
use crate::error::{CipherError, KeyError, ResolveError};
use crate::filtering::{
    lemma_filter_agree, lemma_filter_all, lemma_filter_element, lemma_filter_keeps,
};
use crate::handler::file::{stored_file, stored_link, SealedUpload};
use crate::models::{File, SharedLink};
use crate::trusted::{
    aes256_cbc_pkcs7_decrypted, rsa_key_pair, rsa_pkcs1v15_decrypted, rsa_public_key_parses,
};
use crate::utils::decrypt::decrypt_file_spec;
use crate::utils::encrypt::{sealed_for, sealed_with, AES_IV_LEN, AES_KEY_LEN};
use crate::utils::keys::{decode_public_key_spec, is_key_of, is_stored_form_of, GeneratedKey};
use vstd::prelude::*;
use vstd::utf8::{encode_utf8_decode_utf8, encode_utf8_valid_utf8};

verus! {

/// Round trip. Whatever `encrypt_file` seals for the public half of a key
/// pair, `decrypt_file` opens with the private half to exactly the payload
/// that was sealed: of any length, the empty payload and payloads that end
/// on a block boundary included.
pub proof fn lemma_decrypt_inverts_encrypt(
    file_data: Seq<u8>,
    public_pem: Seq<char>,
    private_pem: Seq<char>,
    encrypted_aes_key: Seq<u8>,
    encrypted_data: Seq<u8>,
    iv: Seq<u8>,
)
    requires
        rsa_key_pair(public_pem, private_pem),
        sealed_for(file_data, public_pem, encrypted_aes_key, encrypted_data, iv),
    ensures
        decrypt_file_spec(encrypted_aes_key, encrypted_data, iv, private_pem) == Ok::<
            Seq<u8>,
            CipherError,
        >(file_data),
{
    let key = choose|key: Seq<u8>| #[trigger]
        sealed_with(key, file_data, public_pem, encrypted_aes_key, encrypted_data, iv);
    assert(sealed_with(key, file_data, public_pem, encrypted_aes_key, encrypted_data, iv));
}

/// What is sealed for a generated key has a wrapped key of 256 bytes: the
/// length of the key's modulus of 2048 bits.
pub proof fn lemma_wrapped_key_is_as_long_as_the_modulus(
    generated: GeneratedKey,
    user_id: u128,
    file_data: Seq<u8>,
    encrypted_aes_key: Seq<u8>,
    encrypted_data: Seq<u8>,
    iv: Seq<u8>,
)
    requires
        is_key_of(generated, user_id),
        sealed_for(file_data, generated.public_key.pem@, encrypted_aes_key, encrypted_data, iv),
    ensures
        encrypted_aes_key.len() == 256,
{
}

/// Tamper sensitivity, as far as the scheme gives it. The sealed parts carry
/// no authentication tag, so a changed part is rejected exactly where one of
/// the two ciphers rejects it: where the key does not unwrap, where what
/// unwraps has not the length of a key or the vector not that of a block, or
/// where the decrypted data does not end in valid padding. What is opened
/// otherwise is what the block cipher gives under the key that unwrapped,
/// and nothing else.
pub proof fn lemma_tampering_fails_where_a_cipher_rejects(
    encrypted_aes_key: Seq<u8>,
    encrypted_file_data: Seq<u8>,
    iv: Seq<u8>,
    private_pem: Seq<char>,
)
    ensures
        decrypt_file_spec(encrypted_aes_key, encrypted_file_data, iv, private_pem) is Err <==> (
        match rsa_pkcs1v15_decrypted(private_pem, encrypted_aes_key) {
            None => true,
            Some(key) => key.len() != AES_KEY_LEN || iv.len() != AES_IV_LEN
                || aes256_cbc_pkcs7_decrypted(key, iv, encrypted_file_data) is None,
        }),
        decrypt_file_spec(encrypted_aes_key, encrypted_file_data, iv, private_pem) matches Ok(
            data,
        ) ==> rsa_pkcs1v15_decrypted(private_pem, encrypted_aes_key) matches Some(key)
            && aes256_cbc_pkcs7_decrypted(key, iv, encrypted_file_data) == Some(data),
{
}

/// The stored form of a public key reads back as the key text that it was
/// made from: encoding and then decoding is the identity.
pub proof fn lemma_stored_public_key_reads_back(stored: Seq<char>, pem: Seq<char>)
    requires
        is_stored_form_of(stored, pem),
        rsa_public_key_parses(pem),
    ensures
        decode_public_key_spec(stored) == Ok::<Seq<char>, KeyError>(pem),
{
    encode_utf8_valid_utf8(pem);
    encode_utf8_decode_utf8(pem);
}

/// Expiry boundary, the closed side. A stored grant whose expiration is the
/// clock's reading or earlier, or that has none, is not found: by no caller
/// and with no password.
pub proof fn lemma_expired_grant_is_not_found(
    files: Seq<File>,
    links: Seq<SharedLink>,
    i: int,
    caller: u128,
    now: i64,
    password_matches: bool,
)
    requires
        link_ids_distinct(links),
        0 <= i < links.len(),
        links[i].expiration_date matches Some(t) ==> t <= now,
    ensures
        resolve_grant_spec(files, links, links[i].id, caller, now, password_matches) == Err::<
            File,
            ResolveError,
        >(ResolveError::NotFound),
{
    assert forall|j: int| 0 <= j < links.len() implies !(#[trigger] links[j]).spec_resolves(
        links[i].id,
        caller,
        now,
    ) by {
        if links[j].id == links[i].id {
            assert(j == i);
        }
    }
}

/// Expiry boundary, the open side. A stored grant whose expiration lies
/// strictly after the clock's reading is the one that its recipient
/// resolves under its identifier.
pub proof fn lemma_live_grant_resolves(links: Seq<SharedLink>, i: int, caller: u128, now: i64)
    requires
        link_ids_distinct(links),
        0 <= i < links.len(),
        links[i].recipient_user_id == Some(caller),
        links[i].expiration_date matches Some(t) && t > now,
    ensures
        resolving_link(links, links[i].id, caller, now) == Some(links[i]),
{
    assert(links[i].spec_resolves(links[i].id, caller, now));
    let j = choose|j: int|
        0 <= j < links.len() && (#[trigger] links[j]).spec_resolves(links[i].id, caller, now);
    assert(j == i);
}

/// Access control. A caller who is not the recipient of any grant stored
/// under `shared_id` gets `NotFound`, whether such a grant exists or not:
/// the two cases cannot be told apart.
pub proof fn lemma_foreign_grant_is_not_found(
    files: Seq<File>,
    links: Seq<SharedLink>,
    shared_id: u128,
    caller: u128,
    now: i64,
    password_matches: bool,
)
    requires
        forall|i: int|
            0 <= i < links.len() && (#[trigger] links[i]).id == shared_id
                ==> links[i].recipient_user_id != Some(caller),
    ensures
        resolve_grant_spec(files, links, shared_id, caller, now, password_matches) == Err::<
            File,
            ResolveError,
        >(ResolveError::NotFound),
{
    assert forall|j: int| 0 <= j < links.len() implies !(#[trigger] links[j]).spec_resolves(
        shared_id,
        caller,
        now,
    ) by {}
}

/// Sweep convergence. From any state of the store, and so after any run of
/// creations and of sweeps that stopped after their first step, a sweep that
/// runs to its end leaves no grant that has expired and no payload without a
/// grant, and a further sweep at the same instant changes nothing.
pub proof fn lemma_sweep_converges(files: Seq<File>, links: Seq<SharedLink>, now: i64)
    ensures
        ({
            let links_after = live_links(links, now);
            let files_after = referenced_files(files, links_after);
            &&& forall|i: int|
                0 <= i < links_after.len() ==> !(#[trigger] links_after[i]).spec_is_expired(now)
            &&& forall|i: int|
                0 <= i < files_after.len() ==> has_link_to(
                    links_after,
                    (#[trigger] files_after[i]).id,
                )
            &&& live_links(links_after, now) == links_after
            &&& referenced_files(files_after, links_after) == files_after
        }),
{
    let links_after = live_links(links, now);
    let files_after = referenced_files(files, links_after);
    assert forall|i: int| 0 <= i < links_after.len() implies survives_sweep(now)(
        #[trigger] links_after[i],
    ) by {
        lemma_filter_element(links, survives_sweep(now), i);
    }
    assert forall|i: int| 0 <= i < files_after.len() implies is_referenced(links_after)(
        #[trigger] files_after[i],
    ) by {
        lemma_filter_element(files, is_referenced(links_after), i);
    }
    lemma_filter_all(links_after, survives_sweep(now));
    lemma_filter_all(files_after, is_referenced(links_after));
}

/// A file that was sent is received. Let a store with distinct grant
/// identifiers take the payload and the grant of an upload that was sealed
/// for the public half of a key pair. Then, for as long as the clock reads
/// less than the expiration, the recipient who supplies the matching
/// password resolves the grant to that payload, and the private half opens
/// it to the very bytes that were uploaded, any number of times. With a
/// password that does not match the recipient gets `AccessDenied`; and from
/// the expiration on, the grant is not found, whatever the password.
pub proof fn lemma_sent_file_is_received(
    files: Seq<File>,
    links: Seq<SharedLink>,
    sealed: SealedUpload,
    saved: SavedShare,
    password_hash: String,
    created: i64,
    file_data: Seq<u8>,
    public_pem: Seq<char>,
    private_pem: Seq<char>,
    now: i64,
)
    requires
        link_ids_distinct(links),
        !has_file(files, saved.file_id),
        forall|i: int| 0 <= i < links.len() ==> (#[trigger] links[i]).id != saved.shared_id,
        sealed_for(
            file_data,
            public_pem,
            sealed.encrypted_aes_key@,
            sealed.encrypted_file@,
            sealed.iv@,
        ),
        rsa_key_pair(public_pem, private_pem),
    ensures
        ({
            let payload = stored_file(sealed, saved.file_id, created);
            let files_after = files.push(payload);
            let links_after = links.push(stored_link(sealed, saved, password_hash, created));
            let recipient = sealed.recipient_user_id;
            &&& now < sealed.expiration_date ==> resolve_grant_spec(
                files_after,
                links_after,
                saved.shared_id,
                recipient,
                now,
                true,
            ) == Ok::<File, ResolveError>(payload)
            &&& decrypt_file_spec(
                payload.encrypted_aes_key@,
                payload.encrypted_file@,
                payload.iv@,
                private_pem,
            ) == Ok::<Seq<u8>, CipherError>(file_data)
            &&& now < sealed.expiration_date ==> resolve_grant_spec(
                files_after,
                links_after,
                saved.shared_id,
                recipient,
                now,
                false,
            ) == Err::<File, ResolveError>(ResolveError::AccessDenied)
            &&& now >= sealed.expiration_date ==> forall|password_matches: bool|
                #[trigger] resolve_grant_spec(
                    files_after,
                    links_after,
                    saved.shared_id,
                    recipient,
                    now,
                    password_matches,
                ) == Err::<File, ResolveError>(ResolveError::NotFound)
        }),
{
    let payload = stored_file(sealed, saved.file_id, created);
    let link = stored_link(sealed, saved, password_hash, created);
    let files_after = files.push(payload);
    let links_after = links.push(link);
    let recipient = sealed.recipient_user_id;
    let at = links.len() as int;
    assert(links_after[at] == link);
    assert(link_ids_distinct(links_after));
    lemma_decrypt_inverts_encrypt(
        file_data,
        public_pem,
        private_pem,
        sealed.encrypted_aes_key@,
        sealed.encrypted_file@,
        sealed.iv@,
    );
    if now < sealed.expiration_date {
        lemma_live_grant_resolves(links_after, at, recipient, now);
        let found = files.len() as int;
        assert(files_after[found].id == saved.file_id);
        let k = choose|k: int|
            0 <= k < files_after.len() && (#[trigger] files_after[k]).id == saved.file_id;
        if k != found {
            assert(files[k].id == saved.file_id);
        }
        assert(file_with_id(files_after, saved.file_id) == Some(payload));
    } else {
        assert forall|password_matches: bool|
            #[trigger] resolve_grant_spec(
                files_after,
                links_after,
                saved.shared_id,
                recipient,
                now,
                password_matches,
            ) == Err::<File, ResolveError>(ResolveError::NotFound) by {
            lemma_expired_grant_is_not_found(
                files_after,
                links_after,
                at,
                recipient,
                now,
                password_matches,
            );
        }
    }
}

/// A grant that has expired is gone after the sweep: whoever asks for it
/// then, with whatever password, gets `NotFound`, as for a grant that never
/// was.
pub proof fn lemma_swept_grant_is_not_found(
    files: Seq<File>,
    links: Seq<SharedLink>,
    shared_id: u128,
    caller: u128,
    swept_at: i64,
    now: i64,
    password_matches: bool,
)
    requires
        forall|i: int|
            0 <= i < links.len() && (#[trigger] links[i]).id == shared_id ==> links[i].spec_is_expired(
                swept_at,
            ),
    ensures
        resolve_grant_spec(
            referenced_files(files, live_links(links, swept_at)),
            live_links(links, swept_at),
            shared_id,
            caller,
            now,
            password_matches,
        ) == Err::<File, ResolveError>(ResolveError::NotFound),
{
    let kept = live_links(links, swept_at);
    assert forall|j: int| 0 <= j < kept.len() implies !(#[trigger] kept[j]).spec_resolves(
        shared_id,
        caller,
        now,
    ) by {
        lemma_filter_element(links, survives_sweep(swept_at), j);
    }
}

/// The plan carries out the sweep. In a store whose grants have distinct
/// identifiers, deleting the grants that `plan_sweep` names and then the
/// payloads that it names leaves what the sweep leaves.
pub proof fn lemma_plan_carries_out_sweep(files: Seq<File>, links: Seq<SharedLink>, now: i64)
    requires
        link_ids_distinct(links),
    ensures
        links_without(links, expired_link_ids_spec(links, now)) == live_links(links, now),
        files_without(
            files,
            orphaned_file_ids_spec(files.map_values(|file: File| file.id), links, now),
        ) == referenced_files(files, live_links(links, now)),
{
    let retired = links.filter(retired_by_sweep(now));
    let link_ids = expired_link_ids_spec(links, now);
    assert forall|i: int| 0 <= i < links.len() implies link_ids.contains(
        (#[trigger] links[i]).id,
    ) == links[i].spec_is_expired(now) by {
        if links[i].spec_is_expired(now) {
            lemma_filter_keeps(links, retired_by_sweep(now), i);
            let k = choose|k: int| 0 <= k < retired.len() && retired[k] == links[i];
            assert(link_ids[k] == links[i].id);
        }
        if link_ids.contains(links[i].id) {
            let k = choose|k: int| 0 <= k < link_ids.len() && link_ids[k] == links[i].id;
            lemma_filter_element(links, retired_by_sweep(now), k);
            let a = choose|a: int|
                0 <= a < links.len() && links[a] == retired[k] && retired_by_sweep(now)(links[a]);
            assert(links[a].id == links[i].id);
            assert(a == i);
        }
    }
    lemma_filter_agree(
        links,
        |link: SharedLink| !link_ids.contains(link.id),
        survives_sweep(now),
    );
    let all_ids = files.map_values(|file: File| file.id);
    let orphaned = orphaned_by_sweep(links, now);
    let file_ids = orphaned_file_ids_spec(all_ids, links, now);
    assert forall|i: int| 0 <= i < files.len() implies file_ids.contains(
        (#[trigger] files[i]).id,
    ) == !has_link_to(live_links(links, now), files[i].id) by {
        if orphaned(files[i].id) {
            assert(all_ids[i] == files[i].id);
            lemma_filter_keeps(all_ids, orphaned, i);
        }
        if file_ids.contains(files[i].id) {
            let k = choose|k: int| 0 <= k < file_ids.len() && file_ids[k] == files[i].id;
            lemma_filter_element(all_ids, orphaned, k);
        }
    }
    lemma_filter_agree(
        files,
        |file: File| !file_ids.contains(file.id),
        is_referenced(live_links(links, now)),
    );
}

/// No oracle. A key that did not unwrap and padding that did not check are
/// the two failures of decryption; the caller is told the same of both,
/// while the log tells them apart.
pub proof fn lemma_decryption_failures_look_alike()
    ensures
        CipherError::KeyUnwrap.spec_is_decryption_failure(),
        CipherError::Padding.spec_is_decryption_failure(),
        CipherError::KeyUnwrap.spec_caller_message() == CipherError::Padding.spec_caller_message(),
        CipherError::KeyUnwrap.spec_log_message() != CipherError::Padding.spec_log_message(),
{
    reveal_strlit("symmetric key could not be unwrapped");
    reveal_strlit("padding of the decrypted payload is invalid");
    assert(CipherError::KeyUnwrap.spec_log_message().len() == 36);
    assert(CipherError::Padding.spec_log_message().len() == 43);
}

} // verus!
