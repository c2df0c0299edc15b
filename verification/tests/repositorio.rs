use rusqlite::Connection;
use versoes::db::{
    adicionar_versao, adquirir_versoes, conexao_memoria, modificar_versao, remover_versao,
};
use versoes::registro::{Versao, VersaoId};

/// The order-preserving integer key of a floating-point version value, as the
/// HTTP edge computes it: flipping the sign bit (or, for negatives, every
/// bit) makes unsigned integer order agree with numeric order.
fn chave(v: f32) -> u32 {
    let bits = v.to_bits();
    if bits & 0x8000_0000 != 0 {
        !bits
    } else {
        bits ^ 0x8000_0000
    }
}

fn nova(versao: u32, download: &str) -> Versao {
    Versao { id: 0, versao, download: download.to_string() }
}

fn abrir() -> Connection {
    conexao_memoria().expect("an in-memory database should open")
}

#[test]
fn chave_preserva_a_ordem_numerica() {
    assert!(chave(-2.0) < chave(-1.0));
    assert!(chave(-1.0) < chave(0.0));
    assert!(chave(0.0) < chave(1.0));
    assert!(chave(1.0) < chave(1.5));
    assert!(chave(1.5) < chave(11.0));
    assert_eq!(chave(2.5), chave(2.5));
}

#[test]
fn insercao_aparece_na_listagem() {
    let mut conexao = abrir();
    adicionar_versao(&mut conexao, &nova(chave(1.5), "a.zip")).expect("insert should succeed");
    let versoes = adquirir_versoes(&conexao).expect("listing should succeed");
    assert_eq!(versoes.len(), 1);
    assert_eq!(versoes[0].versao, chave(1.5));
    assert_eq!(versoes[0].download, "a.zip");
    assert_ne!(versoes[0].id, 0);
}

#[test]
fn round_trip_insercao_listagem() {
    let mut conexao = abrir();
    adicionar_versao(&mut conexao, &nova(chave(1.5), "a.zip")).expect("insert should succeed");
    adicionar_versao(&mut conexao, &nova(chave(0.9), "b.zip")).expect("insert should succeed");
    let versoes = adquirir_versoes(&conexao).expect("listing should succeed");
    assert!(versoes.iter().any(|v| v.versao == chave(1.5) && v.download == "a.zip"));
}

#[test]
fn listagem_devolve_as_dez_maiores_em_ordem() {
    let mut conexao = abrir();
    for n in 1..=11 {
        let texto = format!("v{}.zip", n);
        adicionar_versao(&mut conexao, &nova(chave(n as f32), &texto))
            .expect("insert should succeed");
    }
    let versoes = adquirir_versoes(&conexao).expect("listing should succeed");
    assert_eq!(versoes.len(), 10);
    for n in 0..10 {
        assert_eq!(versoes[n].versao, chave((11 - n) as f32));
    }
    assert!(versoes.iter().all(|v| v.versao != chave(1.0)));
}

#[test]
fn listagem_ordenada_e_limitada() {
    let mut conexao = abrir();
    let valores = [3.0f32, -1.0, 7.5, 0.25, 7.5, 2.0];
    for (n, valor) in valores.iter().enumerate() {
        let texto = format!("d{}.zip", n);
        adicionar_versao(&mut conexao, &nova(chave(*valor), &texto))
            .expect("insert should succeed");
    }
    let versoes = adquirir_versoes(&conexao).expect("listing should succeed");
    assert_eq!(versoes.len(), valores.len());
    assert!(versoes.len() <= 10);
    for par in versoes.windows(2) {
        assert!(par[0].versao >= par[1].versao);
    }
}

#[test]
fn remocao_de_id_ausente_tem_sucesso() {
    let mut conexao = abrir();
    remover_versao(&mut conexao, 42).expect("deleting an absent id should succeed");
    let versoes = adquirir_versoes(&conexao).expect("listing should succeed");
    assert!(versoes.is_empty());
}

#[test]
fn atualizacao_de_id_ausente_tem_sucesso() {
    let mut conexao = abrir();
    let pedido = VersaoId { id: 7, versao: chave(2.0), download: "c.zip".to_string() };
    modificar_versao(&mut conexao, &pedido).expect("updating an absent id should succeed");
    let versoes = adquirir_versoes(&conexao).expect("listing should succeed");
    assert!(versoes.is_empty());
}

#[test]
fn remocao_apaga_somente_a_linha_dada() {
    let mut conexao = abrir();
    adicionar_versao(&mut conexao, &nova(chave(1.0), "um.zip")).expect("insert should succeed");
    adicionar_versao(&mut conexao, &nova(chave(2.0), "dois.zip")).expect("insert should succeed");
    let versoes = adquirir_versoes(&conexao).expect("listing should succeed");
    let alvo = versoes.iter().find(|v| v.download == "um.zip").expect("row should be listed");
    remover_versao(&mut conexao, alvo.id).expect("delete should succeed");
    let restantes = adquirir_versoes(&conexao).expect("listing should succeed");
    assert_eq!(restantes.len(), 1);
    assert_eq!(restantes[0].download, "dois.zip");
}

#[test]
fn atualizacao_substitui_os_dois_campos() {
    let mut conexao = abrir();
    adicionar_versao(&mut conexao, &nova(chave(1.0), "velho.zip")).expect("insert should succeed");
    let versoes = adquirir_versoes(&conexao).expect("listing should succeed");
    let id = versoes[0].id;
    let pedido = VersaoId { id, versao: chave(9.0), download: "novo.zip".to_string() };
    modificar_versao(&mut conexao, &pedido).expect("update should succeed");
    let depois = adquirir_versoes(&conexao).expect("listing should succeed");
    assert_eq!(depois.len(), 1);
    assert_eq!(depois[0].id, id);
    assert_eq!(depois[0].versao, chave(9.0));
    assert_eq!(depois[0].download, "novo.zip");
}

#[test]
fn insercoes_seguidas_aparecem_exatamente_uma_vez() {
    let mut conexao = abrir();
    for n in 0..5 {
        let texto = format!("lote{}.zip", n);
        adicionar_versao(&mut conexao, &nova(chave(n as f32), &texto))
            .expect("insert should succeed");
    }
    let versoes = adquirir_versoes(&conexao).expect("listing should succeed");
    assert_eq!(versoes.len(), 5);
    for n in 0..5 {
        let texto = format!("lote{}.zip", n);
        assert_eq!(versoes.iter().filter(|v| v.download == texto).count(), 1);
    }
    let mut ids: Vec<i32> = versoes.iter().map(|v| v.id).collect();
    ids.sort();
    ids.dedup();
    assert_eq!(ids.len(), 5);
}

#[test]
fn ids_nao_sao_reutilizados_apos_remocao() {
    let mut conexao = abrir();
    adicionar_versao(&mut conexao, &nova(chave(1.0), "um.zip")).expect("insert should succeed");
    let primeiro = adquirir_versoes(&conexao).expect("listing should succeed")[0].id;
    remover_versao(&mut conexao, primeiro).expect("delete should succeed");
    adicionar_versao(&mut conexao, &nova(chave(2.0), "dois.zip")).expect("insert should succeed");
    let segundo = adquirir_versoes(&conexao).expect("listing should succeed")[0].id;
    assert!(segundo > primeiro);
}

#[test]
fn linha_de_esquema_alheio_que_nao_decodifica_e_descartada() {
    let conexao = Connection::open_in_memory().expect("an in-memory database should open");
    conexao
        .execute(
            "CREATE TABLE versao(
                id INTEGER PRIMARY KEY AUTOINCREMENT,
                versao REAL NOT NULL,
                download VARCHAR(255)
            )",
            (),
        )
        .expect("the foreign table should be created");
    conexao
        .execute("INSERT INTO versao (versao, download) VALUES (1.5, 'a.zip')", ())
        .expect("the foreign row should be stored");
    let versoes = adquirir_versoes(&conexao).expect("listing still succeeds");
    assert!(versoes.is_empty());
}

#[test]
fn linha_com_texto_invalido_e_descartada_e_o_resto_listado() {
    let mut conexao = abrir();
    adicionar_versao(&mut conexao, &nova(chave(1.0), "bom.zip")).expect("insert should succeed");
    conexao
        .execute(
            "INSERT INTO versao (versao, download) VALUES (7, CAST(x'80' AS TEXT))",
            (),
        )
        .expect("the malformed row should be stored");
    let versoes = adquirir_versoes(&conexao).expect("listing still succeeds");
    assert_eq!(versoes.len(), 1);
    assert_eq!(versoes[0].download, "bom.zip");
}

#[test]
fn listagem_sem_tabela_propaga_o_erro() {
    let conexao = Connection::open_in_memory().expect("an in-memory database should open");
    assert!(adquirir_versoes(&conexao).is_err());
}
