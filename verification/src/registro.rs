use vstd::prelude::*;

verus! {

/// A stored version record. `id` is assigned by the storage layer on insert
/// and is unique among stored rows. `versao` holds the version value as an
/// order-preserving integer key (the verifier takes no floating point, so the
/// HTTP edge translates the wire value to this key and back; the translation
/// keeps the numeric order). `download` is an arbitrary download location.
#[derive(Debug, Clone)]
pub struct Versao {
    pub id: i32,
    pub versao: u32,
    pub download: String,
}

/// The body of an update request: the id of the row to change and the two
/// replacement fields. Same shape as `Versao`; kept separate so that the two
/// requests read differently at the call site.
#[derive(Debug, Clone)]
pub struct VersaoId {
    pub id: i32,
    pub versao: u32,
    pub download: String,
}

/// The mathematical content of one stored row: its version key and the text
/// of its download field.
pub type Linha = (u32, Seq<char>);

/// The mathematical content of the whole table: a finite map from row id to
/// row content. Ids are unique, so a map loses nothing.
pub type Tabela = Map<int, Linha>;

/// How many records a listing returns at most.
pub open spec fn limite_listagem() -> int {
    10
}

/// The records of `linhas` are exactly the rows of the table `t`: each record
/// is a row of `t`, no id appears twice, and every row of `t` appears.
/// The order of `linhas` is left open.
pub open spec fn linhas_da_tabela(t: Tabela, linhas: Seq<Versao>) -> bool {
    &&& forall|i: int|
        0 <= i < linhas.len() ==> t.contains_pair(
            #[trigger] linhas[i].id as int,
            (linhas[i].versao, linhas[i].download@),
        )
    &&& forall|i: int, j: int|
        0 <= i < j < linhas.len() ==> #[trigger] linhas[i].id != #[trigger] linhas[j].id
    &&& forall|id: int|
        t.dom().contains(id) ==> exists|i: int| 0 <= i < linhas.len() && #[trigger] linhas[i].id == id
}

/// The version keys of `s` never grow from left to right.
pub open spec fn ordenada_desc(s: Seq<Versao>) -> bool {
    forall|i: int, j: int| 0 <= i < j < s.len() ==> #[trigger] s[j].versao <= #[trigger] s[i].versao
}

/// The version key of `x` is at most every version key in `s`.
pub open spec fn dominada(s: Seq<Versao>, x: Versao) -> bool {
    forall|i: int| 0 <= i < s.len() ==> x.versao <= #[trigger] s[i].versao
}

/// `saida` is a valid listing of the records `entrada`: it holds the
/// `limite_listagem()` records of `entrada` with the highest version keys
/// (all of them when there are fewer), in descending order of version key.
/// Records are counted with multiplicity, and any record left out has a
/// version key at most that of every record kept.
pub open spec fn selecao_valida(entrada: Seq<Versao>, saida: Seq<Versao>) -> bool {
    &&& ordenada_desc(saida)
    &&& entrada.len() <= limite_listagem() ==> saida.len() == entrada.len()
    &&& entrada.len() > limite_listagem() ==> saida.len() == limite_listagem()
    &&& forall|x: Versao|
        #[trigger] saida.to_multiset().count(x) <= entrada.to_multiset().count(x)
    &&& entrada.len() <= limite_listagem() ==> saida.to_multiset() == entrada.to_multiset()
    &&& forall|x: Versao|
        #[trigger] saida.to_multiset().count(x) < entrada.to_multiset().count(x) ==> dominada(
            saida,
            x,
        )
}

/// The ids of the stored rows other than `id` whose version key is at least
/// that of the row under `id`: the rows that could push it out of a listing.
pub open spec fn concorrentes_acima(t: Tabela, id: int) -> Set<int> {
    Set::new(|k: int| t.dom().contains(k) && k != id && t[k].0 >= t[id].0)
}

/// The table after an insert: the new row stands under the fresh id `novo`.
pub open spec fn apos_insercao(t: Tabela, novo: int, linha: Linha) -> Tabela {
    t.insert(novo, linha)
}

/// The table after a delete: the row under `id` is gone; a table without such
/// a row is unchanged.
pub open spec fn apos_remocao(t: Tabela, id: int) -> Tabela {
    t.remove(id)
}

/// The table after an update: the row under `id`, where there is one, is
/// replaced by `linha`; a table without such a row is unchanged.
pub open spec fn apos_atualizacao(t: Tabela, id: int, linha: Linha) -> Tabela {
    if t.dom().contains(id) {
        t.insert(id, linha)
    } else {
        t
    }
}

} // verus!
