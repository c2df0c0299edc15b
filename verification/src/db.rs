//! The repository: the `versao` table of an embedded SQLite database, reached
//! through rusqlite. The version value is stored in an INTEGER column as its
//! order-preserving key, so the verified selection and the numeric order of
//! the wire value agree on what "higher version" means.
//!
//! Every call into rusqlite stands in a private `external_body` wrapper whose
//! contract states, over the three uninterpreted names below, what the
//! statement does to the rows. The database file at the fixed path may have
//! been written by anyone, with any schema; the contracts therefore promise
//! row-level behaviour only under `tabela_integra`, which a connection opened
//! on a fresh private database has from the start. Everything public below is
//! verified against those contracts.

use vstd::prelude::*;
use crate::registro::{
    Linha, Tabela, Versao, VersaoId, apos_atualizacao, apos_insercao, apos_remocao,
    limite_listagem, linhas_da_tabela, ordenada_desc, selecao_valida,
};
use crate::selecao::top_versoes;

verus! {

/// rusqlite's database connection, declared so that it can stand in
/// signatures; the verifier sees nothing inside a value of it.
#[verifier::external_type_specification]
#[verifier::external_body]
pub struct ConexaoSqlite(rusqlite::Connection);

/// rusqlite's error type, declared so that the repository can hand it on
/// opaquely, as the callers expect.
#[verifier::external_type_specification]
#[verifier::external_body]
pub struct ErroSqlite(rusqlite::Error);

/// The decodable rows of the `versao` table behind a connection: those whose
/// columns read back as an `i32` id, a `u32` version key and a text download,
/// as a finite map keyed by id. A row that does not decode that way (a
/// foreign schema, a value out of range) is not in this map.
pub uninterp spec fn tabela(conexao: rusqlite::Connection) -> Tabela;

/// The `versao` table behind the connection is this crate's own, or absent:
/// where it exists it has the declared schema (rowid-aliased INTEGER id with
/// autoincrement, INTEGER version key, text download) and every one of its
/// rows decodes and bears a positive id, as the autoincrement assigns them,
/// so the physical rows and `tabela` coincide. A database file written by
/// another program may fail this; a fresh private database holds it from the
/// start, and this crate's statements keep it.
pub uninterp spec fn tabela_integra(conexao: rusqlite::Connection) -> bool;

/// A table named `versao` exists behind the connection, whatever its shape.
/// A fresh database lacks it until the creation statement runs; no statement
/// of this crate ever drops it.
pub uninterp spec fn tabela_presente(conexao: rusqlite::Connection) -> bool;

/// The autoincrement high-water mark SQLite records for the `versao` table
/// (0 where none is recorded yet): never reused, never lowered by deletes,
/// and, on this crate's table, at least every id that ever stood in it.
pub uninterp spec fn sequencia(conexao: rusqlite::Connection) -> int;

/// Relies on rusqlite's `Connection::open`: opens the database file at the
/// fixed path, creating it when absent. What the file already holds is not
/// known here, so nothing is assumed of the rows beyond finiteness — in
/// particular not `tabela_integra`, which only a fresh database brings.
#[verifier::external_body]
fn abrir_arquivo() -> (r: Result<rusqlite::Connection, rusqlite::Error>)
    ensures
        match r {
            Ok(conexao) => tabela(conexao).dom().finite(),
            Err(_) => true,
        },
{
    rusqlite::Connection::open("database.db")
}

/// Relies on rusqlite's `Connection::open_in_memory`: a fresh private
/// database with no tables yet, so no `versao` table, no rows, no recorded
/// sequence, and `tabela_integra` vacuously.
#[verifier::external_body]
fn abrir_memoria() -> (r: Result<rusqlite::Connection, rusqlite::Error>)
    ensures
        match r {
            Ok(conexao) => tabela(conexao) == Map::<int, Linha>::empty() && tabela_integra(conexao)
                && sequencia(conexao) == 0 && !tabela_presente(conexao),
            Err(_) => true,
        },
{
    rusqlite::Connection::open_in_memory()
}

/// Relies on rusqlite's `Connection::execute` with `CREATE TABLE IF NOT
/// EXISTS`: where the table is missing it is created empty with this crate's
/// schema, and where it exists nothing happens — so on success the table
/// exists either way. Rows and the recorded sequence stay as they were on
/// every outcome, a present table stays present, and an intact table stays
/// intact.
#[verifier::external_body]
fn criar_tabela(conexao: &mut rusqlite::Connection) -> (r: Result<(), rusqlite::Error>)
    ensures
        tabela(*final(conexao)) == tabela(*old(conexao)),
        sequencia(*final(conexao)) == sequencia(*old(conexao)),
        tabela_integra(*old(conexao)) ==> tabela_integra(*final(conexao)),
        tabela_presente(*old(conexao)) ==> tabela_presente(*final(conexao)),
        r is Ok ==> tabela_presente(*final(conexao)),
{
    let texto = "CREATE TABLE IF NOT EXISTS versao(
        id INTEGER PRIMARY KEY AUTOINCREMENT,
        versao INTEGER NOT NULL,
        download VARCHAR(255)
    )";
    match conexao.execute(texto, ()) {
        Ok(_) => Ok(()),
        Err(erro) => Err(erro),
    }
}

/// Relies on rusqlite's `Connection::execute` with a single-row `INSERT` and
/// on SQLite's documented autoincrement: on an intact table the new row gets
/// the id one past the high-water mark, positive and above every id the
/// table ever held; it enters the decodable rows whenever it fits an `i32`
/// id (an id beyond that does not decode, so the map is unchanged, and
/// nothing more is claimed). A failed statement changes nothing.
#[verifier::external_body]
fn inserir_linha(conexao: &mut rusqlite::Connection, versao: u32, download: &String) -> (r: Result<
    (),
    rusqlite::Error,
>)
    ensures
        tabela_presente(*final(conexao)) == tabela_presente(*old(conexao)),
        match r {
            Ok(_) => tabela_integra(*old(conexao)) ==> ({
                let novo = sequencia(*old(conexao)) + 1;
                &&& sequencia(*final(conexao)) == novo
                &&& novo > 0
                &&& forall|id: int| tabela(*old(conexao)).dom().contains(id) ==> id < novo
                &&& novo <= 0x7fff_ffff ==> tabela(*final(conexao)) == apos_insercao(
                    tabela(*old(conexao)),
                    novo,
                    (versao, download@),
                ) && tabela_integra(*final(conexao))
                &&& novo > 0x7fff_ffff ==> tabela(*final(conexao)) == tabela(*old(conexao))
            }),
            Err(_) => tabela(*final(conexao)) == tabela(*old(conexao)) && sequencia(
                *final(conexao),
            ) == sequencia(*old(conexao)) && (tabela_integra(*old(conexao)) ==> tabela_integra(
                *final(conexao),
            )),
        },
{
    let texto = "INSERT INTO versao (versao, download) VALUES (?, ?)";
    match conexao.execute(texto, (versao, download.as_str())) {
        Ok(_) => Ok(()),
        Err(erro) => Err(erro),
    }
}

/// Relies on rusqlite's `Connection::execute` with `DELETE ... WHERE id = ?`:
/// on an intact table the row under that id, where there is one, is gone and
/// the rest stand; a statement that matches no row still succeeds. Deletes
/// never lower the recorded sequence, and a failed statement changes nothing.
#[verifier::external_body]
fn remover_linha(conexao: &mut rusqlite::Connection, id: i32) -> (r: Result<(), rusqlite::Error>)
    ensures
        sequencia(*final(conexao)) == sequencia(*old(conexao)),
        tabela_integra(*old(conexao)) ==> tabela_integra(*final(conexao)),
        tabela_presente(*final(conexao)) == tabela_presente(*old(conexao)),
        match r {
            Ok(_) => tabela_integra(*old(conexao)) ==> tabela(*final(conexao)) == apos_remocao(
                tabela(*old(conexao)),
                id as int,
            ),
            Err(_) => tabela(*final(conexao)) == tabela(*old(conexao)),
        },
{
    let texto = "DELETE FROM versao WHERE id = ?";
    match conexao.execute(texto, (id,)) {
        Ok(_) => Ok(()),
        Err(erro) => Err(erro),
    }
}

/// Relies on rusqlite's `Connection::execute` with `UPDATE ... WHERE id = ?`:
/// on an intact table both fields of the row under that id are replaced with
/// values that decode again, and a statement that matches no row still
/// succeeds and changes nothing; so does a failed one. The recorded sequence
/// is untouched.
#[verifier::external_body]
fn atualizar_linha(
    conexao: &mut rusqlite::Connection,
    id: i32,
    versao: u32,
    download: &String,
) -> (r: Result<(), rusqlite::Error>)
    ensures
        sequencia(*final(conexao)) == sequencia(*old(conexao)),
        tabela_integra(*old(conexao)) ==> tabela_integra(*final(conexao)),
        tabela_presente(*final(conexao)) == tabela_presente(*old(conexao)),
        match r {
            Ok(_) => tabela_integra(*old(conexao)) ==> tabela(*final(conexao)) == apos_atualizacao(
                tabela(*old(conexao)),
                id as int,
                (versao, download@),
            ),
            Err(_) => tabela(*final(conexao)) == tabela(*old(conexao)),
        },
{
    let texto = "UPDATE versao SET versao = ?, download = ? WHERE id = ?";
    match conexao.execute(texto, (versao, download.as_str(), id)) {
        Ok(_) => Ok(()),
        Err(erro) => Err(erro),
    }
}

/// Relies on rusqlite's `Connection::prepare` and `Statement::query_map` with
/// a bare `SELECT`, stepped to the end: on an intact table every row appears
/// exactly once, with its positive id, in an order SQLite leaves open. Only a
/// row that fails to decode is dropped (the four errors `Row::get` wraps a
/// decode failure in); a database error while stepping is returned as the
/// statement's failure, not swallowed.
#[verifier::external_body]
fn consultar_linhas(conexao: &rusqlite::Connection) -> (r: Result<Vec<Versao>, rusqlite::Error>)
    ensures
        match r {
            Ok(linhas) => tabela_integra(*conexao) ==> linhas_da_tabela(tabela(*conexao), linhas@)
                && (forall|i: int| 0 <= i < linhas@.len() ==> 0 < #[trigger] linhas@[i].id),
            Err(_) => true,
        },
{
    let mut consulta = conexao.prepare("SELECT id, versao, download FROM versao")?;
    let itens = consulta.query_map([], |r| Ok(Versao { id: r.get(0)?, versao: r.get(1)?, download: r.get(2)? }))?;
    let mut linhas = Vec::new();
    for item in itens {
        match item {
            Ok(linha) => linhas.push(linha),
            Err(rusqlite::Error::InvalidColumnType(..)) => (),
            Err(rusqlite::Error::IntegralValueOutOfRange(..)) => (),
            Err(rusqlite::Error::FromSqlConversionFailure(..)) => (),
            Err(rusqlite::Error::Utf8Error(..)) => (),
            Err(erro) => return Err(erro),
        }
    }
    Ok(linhas)
}

/// Opens (or creates) the database file at its fixed path and makes sure the
/// `versao` table exists: on success it is present, created where it was
/// missing. Idempotent: safe to call repeatedly; existing rows are kept. A
/// file another program wrote may fail `tabela_integra`, so nothing beyond
/// finiteness and the table's existence is promised of what was opened.
pub fn adquirir_conexao() -> (r: Result<rusqlite::Connection, rusqlite::Error>)
    ensures
        match r {
            Ok(conexao) => tabela(conexao).dom().finite() && tabela_presente(conexao),
            Err(_) => true,
        },
{
    let mut conexao = abrir_arquivo()?;
    criar_tabela(&mut conexao)?;
    Ok(conexao)
}

/// A fresh private database with an empty, intact `versao` table, present
/// from the start: the repository on a table whose every row it wrote
/// itself, with nothing kept on disk.
pub fn conexao_memoria() -> (r: Result<rusqlite::Connection, rusqlite::Error>)
    ensures
        match r {
            Ok(conexao) => tabela(conexao) == Map::<int, Linha>::empty() && tabela_integra(conexao)
                && sequencia(conexao) == 0 && tabela_presente(conexao),
            Err(_) => true,
        },
{
    let mut conexao = abrir_memoria()?;
    criar_tabela(&mut conexao)?;
    Ok(conexao)
}

/// Lists the stored records: never more than ten, in descending order of
/// version key whatever the table holds, and on an intact table exactly the
/// ten with the highest version keys (all of them when the table holds at
/// most ten), each with its positive storage-assigned id. The choice among
/// records with equal keys is left open, as the database leaves the row
/// order open. A database error during the query is returned; on a table
/// that is not this crate's own nothing is promised of which rows appear.
pub fn adquirir_versoes(conexao: &rusqlite::Connection) -> (r: Result<
    Vec<Versao>,
    rusqlite::Error,
>)
    ensures
        match r {
            Ok(versoes) => versoes@.len() <= limite_listagem() && ordenada_desc(versoes@) && (
            tabela_integra(*conexao) ==> (exists|linhas: Seq<Versao>|
                #[trigger] linhas_da_tabela(tabela(*conexao), linhas) && selecao_valida(
                    linhas,
                    versoes@,
                )) && (forall|i: int| 0 <= i < versoes@.len() ==> 0 < #[trigger] versoes@[i].id)),
            Err(_) => true,
        },
{
    let linhas = consultar_linhas(conexao)?;
    let ghost entradas: Seq<Versao> = linhas@;
    let versoes = top_versoes(linhas);
    proof {
        broadcast use vstd::seq_lib::group_to_multiset_ensures;
        broadcast use vstd::multiset::group_multiset_axioms;

        if tabela_integra(*conexao) {
            assert forall|i: int| 0 <= i < versoes@.len() implies 0 < #[trigger] versoes@[i].id by {
                assert(versoes@.contains(versoes@[i]));
                assert(versoes@.to_multiset().count(versoes@[i]) > 0);
                assert(entradas.to_multiset().count(versoes@[i]) > 0);
                assert(entradas.contains(versoes@[i]));
                let j = choose|j: int| 0 <= j < entradas.len() && entradas[j] == versoes@[i];
                assert(0 < entradas[j].id);
            }
        }
    }
    Ok(versoes)
}

/// Stores one new record holding the version key and download of `versao`;
/// its `id` field is ignored. On an intact table the storage assigns the next
/// id past the high-water mark: positive, above every id the table ever
/// held, and landing in the decodable rows whenever it fits an `i32`.
pub fn adicionar_versao(conexao: &mut rusqlite::Connection, versao: &Versao) -> (r: Result<
    (),
    rusqlite::Error,
>)
    ensures
        tabela_presente(*final(conexao)) == tabela_presente(*old(conexao)),
        match r {
            Ok(_) => tabela_integra(*old(conexao)) ==> ({
                let novo = sequencia(*old(conexao)) + 1;
                &&& sequencia(*final(conexao)) == novo
                &&& novo > 0
                &&& forall|id: int| tabela(*old(conexao)).dom().contains(id) ==> id < novo
                &&& novo <= 0x7fff_ffff ==> tabela(*final(conexao)) == apos_insercao(
                    tabela(*old(conexao)),
                    novo,
                    (versao.versao, versao.download@),
                ) && tabela_integra(*final(conexao))
                &&& novo > 0x7fff_ffff ==> tabela(*final(conexao)) == tabela(*old(conexao))
            }),
            Err(_) => tabela(*final(conexao)) == tabela(*old(conexao)) && sequencia(
                *final(conexao),
            ) == sequencia(*old(conexao)) && (tabela_integra(*old(conexao)) ==> tabela_integra(
                *final(conexao),
            )),
        },
{
    inserir_linha(conexao, versao.versao, &versao.download)
}

/// Deletes the record under `id_versao`. Deleting an id that no record bears
/// is a no-op that still succeeds, and no delete lowers the recorded
/// sequence, so freed ids are not reused.
pub fn remover_versao(conexao: &mut rusqlite::Connection, id_versao: i32) -> (r: Result<
    (),
    rusqlite::Error,
>)
    ensures
        sequencia(*final(conexao)) == sequencia(*old(conexao)),
        tabela_integra(*old(conexao)) ==> tabela_integra(*final(conexao)),
        tabela_presente(*final(conexao)) == tabela_presente(*old(conexao)),
        match r {
            Ok(_) => tabela_integra(*old(conexao)) ==> tabela(*final(conexao)) == apos_remocao(
                tabela(*old(conexao)),
                id_versao as int,
            ),
            Err(_) => tabela(*final(conexao)) == tabela(*old(conexao)),
        },
{
    remover_linha(conexao, id_versao)
}

/// Replaces both fields of the record under `versao.id`. Updating an id that
/// no record bears is a no-op that still succeeds.
pub fn modificar_versao(conexao: &mut rusqlite::Connection, versao: &VersaoId) -> (r: Result<
    (),
    rusqlite::Error,
>)
    ensures
        sequencia(*final(conexao)) == sequencia(*old(conexao)),
        tabela_integra(*old(conexao)) ==> tabela_integra(*final(conexao)),
        tabela_presente(*final(conexao)) == tabela_presente(*old(conexao)),
        match r {
            Ok(_) => tabela_integra(*old(conexao)) ==> tabela(*final(conexao)) == apos_atualizacao(
                tabela(*old(conexao)),
                versao.id as int,
                (versao.versao, versao.download@),
            ),
            Err(_) => tabela(*final(conexao)) == tabela(*old(conexao)),
        },
{
    atualizar_linha(conexao, versao.id, versao.versao, &versao.download)
}

} // verus!
